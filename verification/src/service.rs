//! The daemons and clients of a node, and the buses they speak over.

use crate::addr::NodeAddr;
use crate::chain::Chain;
use crate::ident::{ChannelId, SwapId};
use crate::rpc::{Error, Request};
use crate::table::{Key, PlainKey};
use vstd::prelude::*;

verus! {

/// The buses that connect the daemons.
#[derive(Clone, Copy, PartialEq, Eq, Structural, Debug, Hash)]
pub enum ServiceBus {
    /// Messages of the peer protocol.
    Msg,
    /// Control.
    Ctl,
    /// Between the threads of one daemon.
    Bridge,
}

/// A daemon or a client.
#[derive(Clone, Copy, PartialEq, Eq, Structural, Debug, Hash)]
pub enum ServiceId {
    Loopback,
    Farcasterd,
    Lnpd,
    /// The daemon that holds the connection to a node.
    Peer(NodeAddr),
    /// The daemon of a channel.
    Channel(ChannelId),
    /// The daemon of a swap.
    Swap(SwapId),
    /// A client, which is known by a number.
    Client(u64),
    /// The daemon that follows a chain.
    Syncer(Chain),
    Wallet,
}

impl View for ServiceId {
    type V = ServiceId;

    open spec fn view(&self) -> ServiceId {
        *self
    }
}

impl Key for ServiceId {
    fn same(&self, other: &Self) -> (r: bool) {
        *self == *other
    }
}

impl PlainKey for ServiceId {
    proof fn plain(k: Self) {
    }
}

/// A request on its way over a bus.
#[derive(Debug)]
pub struct Envelope {
    pub bus: ServiceBus,
    pub source: ServiceId,
    pub dest: ServiceId,
    pub request: Request,
}

/// The swap that a swap daemon runs.
pub open spec fn swap_of(source: ServiceId) -> Option<SwapId> {
    match source {
        ServiceId::Swap(swap_id) => Some(swap_id),
        _ => None,
    }
}

/// The swap that a swap daemon runs; any other service runs none.
pub fn get_swap_id(source: &ServiceId) -> (r: Result<SwapId, Error>)
    ensures
        r == match swap_of(*source) {
            Some(swap_id) => Ok(swap_id),
            None => Err::<SwapId, Error>(Error::NotSwapd),
        },
{
    match *source {
        ServiceId::Swap(swap_id) => Ok(swap_id),
        _ => Err(Error::NotSwapd),
    }
}

} // verus!
