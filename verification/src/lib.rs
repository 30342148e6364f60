//! Typed client for the Infomaniak HTTP API.
//!
//! The crate holds the decisions of one authenticated GET round trip:
//! which address a path resolves to, which headers every request carries,
//! and which error a response status stands for. Sending the request and
//! reading the body are left to the embedding program.

pub mod api;
pub mod client;
pub mod error;
pub mod headers;
mod transport;
