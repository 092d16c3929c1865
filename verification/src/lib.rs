//! A verified core for a C-level service boundary: a name-indexed method
//! table, a dispatcher that turns every failure into an error text on the
//! service handle, and the handlers behind it.
//!
//! The library never performs the outside work of a call itself (decoding
//! and encoding wire messages, loading and running a program). A call is a
//! small state machine: each step takes what the last piece of outside work
//! delivered and answers with the next piece of work to perform, until it
//! hands out the bytes that go back to the caller.

pub mod model;
pub mod service;
