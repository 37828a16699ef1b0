//! The handlers: from a bound request to the operation that serves it, and
//! from the operation's result to the envelope.

pub mod docker;
