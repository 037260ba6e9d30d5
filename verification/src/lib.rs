//! A local bridge between a desktop host and a text-to-speech engine.
//!
//! The library holds the rules of the bridge: the shared text value, the
//! HTTP routes over it, the replies of the outbound sender and of the port
//! health check, and the decisions of the inbound listener. Sockets, threads
//! and the host's event system stay with the caller.

pub mod blob;
pub mod endpoint;
pub mod health;
pub mod http;
pub mod json;
pub mod object;
pub mod relay;
pub mod text;
