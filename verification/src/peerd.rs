//! The daemon that holds the connection to one peer.

pub mod laws;
pub mod runtime;
