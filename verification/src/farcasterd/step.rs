//! What the daemon asks of the world between two decisions, and what it goes on with.
//!
//! A decision ends in a [`Step`]. Whoever carries the step out hands back how it went, together
//! with the value behind it, which holds all that the next decision needs.

use crate::addr::{NodeAddr, RemoteSocketAddr};
use crate::chain::{BitcoinAddress, Chain, Network};
use crate::farcasterd::launch::Task;
use crate::ident::{OfferId, PublicKey, SwapId};
use crate::offer::{Offer, TradeRole};
use crate::rpc::{Error, FundingInfo, InitSwap, Outcome, PubOffer, Request, SwapStart, TakeCommit};
use crate::service::{Envelope, ServiceId};
use vstd::prelude::*;

verus! {

/// An answer to be sent once a request has been carried out.
#[derive(PartialEq, Eq, Debug)]
pub struct Report {
    pub to: ServiceId,
    pub request: Request,
}

/// A swap whose daemon said hello and is about to be started.
#[derive(PartialEq, Eq, Debug)]
pub struct Starting {
    pub role: TradeRole,
    pub source: ServiceId,
    pub swap: SwapId,
    pub init: InitSwap,
    pub network: Network,
}

/// The content of a [`Starting`].
pub struct Start {
    pub role: TradeRole,
    pub source: ServiceId,
    pub swap: SwapId,
    pub init: SwapStart,
    pub network: Network,
}

impl View for Starting {
    type V = Start;

    open spec fn view(&self) -> Start {
        Start {
            role: self.role,
            source: self.source,
            swap: self.swap,
            init: self.init@,
            network: self.network,
        }
    }
}

/// An offer that is listened for and is about to be registered.
#[derive(PartialEq, Eq, Debug)]
pub struct Making {
    pub source: ServiceId,
    pub offer: Offer,
    pub node_id: PublicKey,
    pub public_addr: RemoteSocketAddr,
    pub arbitrating_addr: BitcoinAddress,
    pub accordant_addr: String,
}

/// What comes after a request was sent.
#[derive(PartialEq, Eq, Debug)]
pub enum AfterSend {
    /// Nothing.
    Finish,
    /// The wallet learns the address on the accordant chain, then the taker's commitment. The text
    /// is that of the public offer.
    CommitAccordant { source: ServiceId, offer: OfferId, text: String, commit: TakeCommit },
    /// The wallet learns the taker's commitment.
    CommitForward { source: ServiceId, offer: OfferId, commit: TakeCommit },
    /// The swap runs.
    SwapStarted { role: TradeRole, source: ServiceId, swap: SwapId, report_to: Option<ServiceId> },
    /// The swap's daemon was told to stop.
    SwapStopped { swap: SwapId, outcome: Outcome },
    /// The peer daemon of the swap was told to stop.
    PeerStopped { swap: SwapId, outcome: Outcome },
    /// A syncer was told to stop, and others are still to be.
    SyncerStopped { swap: SwapId, chain: Chain, rest: Vec<Chain>, outcome: Outcome },
    /// More answers are to be sent.
    Reports(Vec<Report>),
}

/// What comes after a daemon was launched.
#[derive(PartialEq, Eq, Debug)]
pub enum AfterLaunch {
    /// The syncer that a swap needs.
    Syncer { chain: Chain, start: Starting },
    /// The peer daemon that listens for takers of an offer.
    Listener(Making),
    /// The daemon of a swap.
    Swapd { role: TradeRole, init: InitSwap, network: Network },
}

/// What comes after a peer daemon was launched that connects to a peer.
#[derive(PartialEq, Eq, Debug)]
pub struct AfterWatch {
    pub source: ServiceId,
    pub peer: NodeAddr,
    pub take: PubOffer,
}

/// What comes after the coins that swaps wait for were put into words.
#[derive(PartialEq, Eq, Debug)]
pub struct AfterDescribe {
    /// The client that asked.
    pub dest: ServiceId,
    /// The number of swaps that wait for the coin, or had it sent.
    pub total: usize,
}

/// What a daemon that was launched came to.
#[derive(PartialEq, Eq, Debug)]
pub enum Watched {
    /// It could not be launched, or its state not be read, in the words of the system.
    Lost(String),
    /// It has ended.
    Exited,
    /// It runs, with this process identifier.
    Running(u32),
}

/// The wallet that coins are sent from.
#[derive(PartialEq, Eq, Debug)]
pub enum FundingWallet {
    Bitcoin { rpc: String, cookie_path: String },
    Monero { rpc: String },
}

/// What the daemon asks of the world.
#[derive(Debug)]
pub enum Step {
    /// Nothing: the request was carried out.
    Done,
    /// Nothing: the request failed.
    Fail(Error),
    /// Send a request.
    Send(Envelope, AfterSend),
    /// Launch a daemon.
    Launch(Task, AfterLaunch),
    /// Launch a peer daemon and look after a moment whether it still runs.
    Watch(Task, AfterWatch),
    /// Send coins from a wallet.
    Fund(FundingInfo, FundingWallet),
    /// Put into words which coins swaps wait for, each in words of its own.
    Describe(Vec<FundingInfo>, AfterDescribe),
}

} // verus!
