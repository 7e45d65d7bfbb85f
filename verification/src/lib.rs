//! Decision logic for a local-development Grafana container lifecycle tool.
//!
//! The library resolves image references, matches running containers,
//! plans bind mounts and ports, and drives the start / stop / reload
//! control sequences as verified state machines. All container-runtime
//! I/O is performed by the surrounding binary, which feeds the results
//! back into these functions as plain values.

pub mod errors;
pub mod fmt;
pub mod image;
pub mod lifecycle;
pub mod matcher;
pub mod mounts;
pub mod ports;
