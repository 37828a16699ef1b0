//! The typed payloads of requests and responses.

pub mod docker;
