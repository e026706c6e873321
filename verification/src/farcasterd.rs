//! The daemon at the centre of a node: it keeps the offers, launches the other daemons and
//! brings peers, swaps, syncers, wallet and clients together.

pub mod client_laws;
pub mod launch;
pub mod launch_laws;
pub mod laws;
pub mod offer_laws;
pub mod runtime;
pub mod state;
pub mod stats;
pub mod step;
pub mod swap_laws;
pub mod sweep;
