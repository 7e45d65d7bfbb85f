//! Port policy: the fixed UI and diagnostic ports, and the choice
//! between the default host port and an ephemeral one.

use vstd::prelude::*;
use crate::errors::Error;

verus! {

/// The container-side UI port, and the default host port mapped to it.
pub const DEFAULT_HOST_PORT: u16 = 3000;

/// The container-side port of the product UI.
pub const UI_PORT: u16 = 3000;

/// The secondary diagnostic port, always mapped one to one.
pub const DIAGNOSTIC_PORT: u16 = 6060;

/// The host port chosen for the UI, mapped to the fixed container ports.
pub struct PortAssignment {
    pub host_port: u16,
}

/// Chooses the host port for the UI. In default mode this is the fixed
/// port; in random-port mode it is the ephemeral port the operating
/// system assigned when the caller bound a transient listener to port 0.
/// A usable ephemeral port is never 0 and never the diagnostic port;
/// anything else is rejected as an allocation failure. The listener is
/// released before the container binds, so the port is only guaranteed
/// free at the instant of allocation (acceptable for local development).
pub fn host_port(random_port: bool, ephemeral: Option<u16>) -> (r: Result<PortAssignment, Error>)
    ensures
        !random_port ==> (r matches Ok(a) && a.host_port == DEFAULT_HOST_PORT),
        random_port && (ephemeral matches Some(p) && p != 0 && p != DIAGNOSTIC_PORT) ==> (
        r matches Ok(a) && a.host_port == ephemeral->0),
        random_port && !(ephemeral matches Some(p) && p != 0 && p != DIAGNOSTIC_PORT) ==> r is Err,
        r matches Ok(a) ==> a.host_port != 0 && a.host_port != DIAGNOSTIC_PORT,
        r matches Err(e) ==> e is PortAllocationError,
{
    if !random_port {
        Ok(PortAssignment { host_port: DEFAULT_HOST_PORT })
    } else {
        match ephemeral {
            Some(p) => {
                if p != 0 && p != DIAGNOSTIC_PORT {
                    Ok(PortAssignment { host_port: p })
                } else {
                    Err(
                        Error::PortAllocationError {
                            message: String::from_str(
                                "the operating system assigned an unusable port",
                            ),
                        },
                    )
                }
            },
            None => Err(
                Error::PortAllocationError {
                    message: String::from_str("binding a transient listener failed"),
                },
            ),
        }
    }
}

} // verus!
