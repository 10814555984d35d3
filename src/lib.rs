//! The GRID protocol: a length-prefixed binary frame format, the addressing
//! grammar for GRID remotes, and the decisions of the client's exchange over a
//! TLS session.

pub mod endian;
pub mod error;
pub mod definitions;
pub mod client;
pub mod tls;
pub mod server;
