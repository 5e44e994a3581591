//! A Docker volume-plugin driver that exposes remote, versioned repositories
//! as mountable filesystem volumes.
//!
//! The crate holds the volume lifecycle state machine: the in-memory registry
//! of named volumes, option validation, and the construction of the external
//! mount-tool invocations. Transport and process I/O live outside the
//! library.

pub mod command;
pub mod driver;
pub mod errors;
pub mod laws;
pub mod registry;
pub mod shared;
pub mod textops;
pub mod volume;
