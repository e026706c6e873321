//! Decision logic of the Farcaster swap node daemons.

pub mod addr;
pub mod chain;
pub mod clock;
pub mod config;
pub mod farcasterd;
pub mod ident;
pub mod laws;
pub mod offer;
pub mod peerd;
pub mod random;
pub mod rpc;
pub mod service;
pub mod table;
pub mod text;
