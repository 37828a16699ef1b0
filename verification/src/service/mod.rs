//! The runtime operations and the build-context archive they send.

pub mod archive;
pub mod docker;
