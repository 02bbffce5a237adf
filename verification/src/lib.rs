//! A runtime for nodes that speak a line-delimited JSON messaging protocol.
//!
//! The runtime turns input lines into requests, hands requests and triggers
//! to one actor, one at a time, and renders the actor's responses as output
//! lines. Reading and writing the streams is left to the caller.
pub mod actor;
pub mod error;
pub mod json;
pub mod message;
pub mod runtime;
