//! Control-plane logic for a small HTTP front end to a local container engine.
//!
//! The crate holds the decisions of the request pipeline: the response
//! envelope, the error model, request binding, the step functions that drive
//! the engine, the route table and the response normaliser. Network and
//! engine round trips are performed by the embedding program, which feeds
//! their outcomes back as plain values.

pub mod api;
pub mod common;
pub mod router;
pub mod schema;
pub mod service;
