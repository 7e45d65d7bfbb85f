//! The error taxonomy of the orchestrator. Query errors are recoverable
//! (callers may proceed with degraded information); the others abort the
//! current operation.

use vstd::prelude::*;

verus! {

/// Why an operation failed.
#[derive(Debug)]
pub enum Error {
    /// Listing or inspecting through the runtime failed; recoverable.
    RuntimeQueryError { message: String },
    /// A pull, create, start, kill, exec or copy failed; fatal to the
    /// current operation.
    RuntimeOperationError { message: String },
    /// Binding the transient listener for an ephemeral port failed, or
    /// no usable port came back; fatal to a start.
    PortAllocationError { message: String },
    /// The environment provides no home directory; fatal to any
    /// operation needing local paths.
    HomeDirectoryUnresolved,
    /// Copying the certificate into the container failed; fatal, the
    /// container is never started.
    CertificateInjectionError { message: String },
}

impl Clone for Error {
    fn clone(&self) -> (other: Self)
        ensures
            other == *self,
    {
        match self {
            Error::RuntimeQueryError { message } => Error::RuntimeQueryError {
                message: message.clone(),
            },
            Error::RuntimeOperationError { message } => Error::RuntimeOperationError {
                message: message.clone(),
            },
            Error::PortAllocationError { message } => Error::PortAllocationError {
                message: message.clone(),
            },
            Error::HomeDirectoryUnresolved => Error::HomeDirectoryUnresolved,
            Error::CertificateInjectionError { message } => Error::CertificateInjectionError {
                message: message.clone(),
            },
        }
    }
}

/// The one-line description of an error, for the caller to print.
pub open spec fn describe_spec(e: Error) -> Seq<char> {
    match e {
        Error::RuntimeQueryError { message } => "runtime query failed: "@ + message@,
        Error::RuntimeOperationError { message } => "runtime operation failed: "@ + message@,
        Error::PortAllocationError { message } => "port allocation failed: "@ + message@,
        Error::HomeDirectoryUnresolved => "could not resolve the home directory"@,
        Error::CertificateInjectionError { message } => "certificate injection failed: "@
            + message@,
    }
}

impl Error {
    /// Renders the error as a single line.
    pub fn describe(&self) -> (r: String)
        ensures
            r@ == describe_spec(*self),
    {
        match self {
            Error::RuntimeQueryError { message } => String::from_str(
                "runtime query failed: ",
            ).concat(message.as_str()),
            Error::RuntimeOperationError { message } => String::from_str(
                "runtime operation failed: ",
            ).concat(message.as_str()),
            Error::PortAllocationError { message } => String::from_str(
                "port allocation failed: ",
            ).concat(message.as_str()),
            Error::HomeDirectoryUnresolved => String::from_str(
                "could not resolve the home directory",
            ),
            Error::CertificateInjectionError { message } => String::from_str(
                "certificate injection failed: ",
            ).concat(message.as_str()),
        }
    }
}

} // verus!
