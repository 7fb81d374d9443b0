//! Discovery-and-session orchestration core for a BACnet/IP gateway.
//!
//! The crate models the gateway's command engine, transport session,
//! receive dispatcher, event bus and discovery cache as verified state
//! machines over plain values.  The byte-level protocol codec is supplied
//! by the `bacnet_rs` crate behind a small set of trusted wrappers; the
//! socket, the async runtime and the web front end live outside this
//! library and drive it through the types and functions defined here.

pub mod bus;
pub mod cache;
pub mod client;
pub mod codec;
pub mod discovery;
pub mod dispatcher;
pub mod engine;
pub mod interface;
pub mod laws;
pub mod text;
pub mod types;
