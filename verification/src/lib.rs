//! Supervision of a single long-running backend child process.
//!
//! The library holds the logic of that lifecycle: resolving a per-user
//! storage location and the connection string derived from it, the
//! environment and executable name a start request carries, the
//! one-slot state that owns the child's handle, and the policy of the
//! loop that observes the child's output until it terminates. The
//! platform calls themselves (directory creation, spawning, signalling,
//! channel reads) are made by the application shell around the library,
//! which hands their outcomes in as plain values.

pub mod errors;
pub mod events;
pub mod paths;
pub mod supervisor;
