//! The state of the daemon, and what each decision does to it.

use crate::addr::{InetSocketAddr, NodeAddr, RemoteSocketAddr};
use crate::chain::{BitcoinAddress, Chain, Coin, MoneroAddress, Network};
use crate::clock::Moment;
use crate::config::Config;
use crate::farcasterd::launch::{self, Daemon};
use crate::farcasterd::stats::Stats;
use crate::farcasterd::step::{
    AfterDescribe, AfterLaunch, AfterSend, AfterWatch, FundingWallet, Making, Report, Start, Step,
    Watched,
};
use crate::ident::{OfferId, PublicKey, RequestId, SwapId};
use crate::offer::{self, PublicTerms, TradeRole};
use crate::rpc::{
    Error, FundingInfo, LaunchSwap, Msg, Notice, Outcome, ProtoPublicOffer, PubOffer,
    Request, SwapStart, TakeCommit,
};
use crate::service::{self, Envelope, ServiceBus, ServiceId};
use crate::table;
use crate::text;
use vstd::prelude::*;

verus! {

/// The state of the daemon.
#[verifier::ext_equal]
pub struct State {
    pub identity: ServiceId,
    pub listens: Map<OfferId, RemoteSocketAddr>,
    pub started: Moment,
    pub connections: Set<NodeAddr>,
    pub running_swaps: Set<SwapId>,
    pub spawning_services: Map<ServiceId, ServiceId>,
    pub making_swaps: Map<ServiceId, (SwapStart, Network)>,
    pub taking_swaps: Map<ServiceId, (SwapStart, Network)>,
    pub public_offers: Map<Seq<char>, PublicTerms>,
    pub arb_addrs: Map<Seq<char>, BitcoinAddress>,
    pub acc_addrs: Map<Seq<char>, MoneroAddress>,
    pub consumed_offers: Map<OfferId, SwapId>,
    pub node_ids: Map<OfferId, PublicKey>,
    pub peerd_ids: Map<OfferId, ServiceId>,
    pub wallet_token: String,
    pub pending_requests: Map<RequestId, (Request, ServiceId)>,
    pub syncer_services: Map<Chain, ServiceId>,
    pub syncer_clients: Map<Chain, Set<SwapId>>,
    pub progress: Map<ServiceId, Seq<Request>>,
    pub funding_btc: Map<SwapId, (BitcoinAddress, u64, bool)>,
    pub funding_xmr: Map<SwapId, (MoneroAddress, u64, bool)>,
    pub stats: Stats,
    pub config: Config,
}

impl State {
    /// The state that the daemon starts in.
    pub open spec fn initial(config: Config, wallet_token: String, started: Moment) -> State {
        State {
            identity: ServiceId::Farcasterd,
            listens: Map::empty(),
            started,
            connections: Set::empty(),
            running_swaps: Set::empty(),
            spawning_services: Map::empty(),
            making_swaps: Map::empty(),
            taking_swaps: Map::empty(),
            public_offers: Map::empty(),
            arb_addrs: Map::empty(),
            acc_addrs: Map::empty(),
            consumed_offers: Map::empty(),
            node_ids: Map::empty(),
            peerd_ids: Map::empty(),
            wallet_token,
            pending_requests: Map::empty(),
            syncer_services: Map::empty(),
            syncer_clients: Map::empty(),
            progress: Map::empty(),
            funding_btc: Map::empty(),
            funding_xmr: Map::empty(),
            stats: Stats::zero(),
            config,
        }
    }
}

/// The answers go out one by one.
pub open spec fn reporting(identity: ServiceId, reports: Seq<Report>, step: Step) -> bool {
    if reports.len() == 0 {
        step is Done
    } else {
        &&& step matches Step::Send(e, AfterSend::Reports(rest))
        &&& e == (Envelope {
            bus: ServiceBus::Ctl,
            source: identity,
            dest: reports[0].to,
            request: reports[0].request,
        })
        &&& rest@ == reports.skip(1)
    }
}

/// An answer to whoever wants one.
pub open spec fn report_to(to: Option<ServiceId>, request: Request) -> Seq<Report> {
    match to {
        Some(to) => seq![Report { to, request }],
        None => Seq::empty(),
    }
}

/// The step is to tell a service to stop.
pub open spec fn terminating(identity: ServiceId, dest: ServiceId, step: Step) -> bool {
    &&& step matches Step::Send(e, _)
    &&& e == (Envelope {
        bus: ServiceBus::Ctl,
        source: identity,
        dest,
        request: Request::Terminate,
    })
}

/// The step is to answer a client, and that ends the request.
pub open spec fn replying(source: ServiceId, dest: ServiceId, step: Step) -> bool {
    &&& step matches Step::Send(e, AfterSend::Finish)
    &&& e.bus == ServiceBus::Ctl
    &&& e.source == source
    &&& e.dest == dest
}

/// The request of a step that sends one.
pub open spec fn sent_request(step: Step) -> Request {
    step->Send_0.request
}

/// A step without effect on the state.
pub open spec fn stays(pre: State, post: State, step: Step, end: Step) -> bool {
    post == pre && step == end
}

// Hello, and the start of a swap.
impl State {
    /// A service that says hello is registered: a peer, a swap, or a syncer that was launched from
    /// here and is not registered yet.
    pub open spec fn greeted(self, source: ServiceId) -> State {
        match source {
            ServiceId::Peer(node) => State { connections: self.connections.insert(node), ..self },
            ServiceId::Swap(swap) => State {
                running_swaps: self.running_swaps.insert(swap),
                ..self
            },
            ServiceId::Syncer(chain) => if !self.syncer_services.contains_key(chain)
                && self.spawning_services.contains_key(source) {
                State { syncer_services: self.syncer_services.insert(chain, source), ..self }
            } else {
                self
            },
            _ => self,
        }
    }

    /// The swap that a daemon was launched for, as the maker if it is one and else as the taker.
    pub open spec fn awaited_swap(self, source: ServiceId) -> Option<(
        TradeRole,
        SwapStart,
        Network,
    )> {
        if self.making_swaps.contains_key(source) {
            let (init, network) = self.making_swaps[source];
            Some((TradeRole::Maker, init, network))
        } else if self.taking_swaps.contains_key(source) {
            let (init, network) = self.taking_swaps[source];
            Some((TradeRole::Taker, init, network))
        } else {
            None
        }
    }

    /// A service says hello. A swap that was launched from here gets its syncers and is started;
    /// of any other service that was launched from here, whoever asked for it is told.
    pub open spec fn hello(pre: State, source: ServiceId, post: State, step: Step) -> bool {
        let s = pre.greeted(source);
        match s.awaited_swap(source) {
            Some((role, init, network)) => match service::swap_of(source) {
                Some(swap) => State::syncers_up(
                    s,
                    Coin::Bitcoin,
                    Start { role, source, swap, init, network },
                    post,
                    step,
                ),
                None => stays(s, post, step, Step::Fail(Error::NotSwapd)),
            },
            None => if s.spawning_services.contains_key(source) {
                &&& post == (State {
                    spawning_services: s.spawning_services.remove(source),
                    ..s
                })
                &&& reporting(
                    s.identity,
                    seq![
                        Report {
                            to: s.spawning_services[source],
                            request: Request::Success(Some(Notice::ConnectedTo(source))),
                        },
                    ],
                    step,
                )
            } else {
                stays(s, post, step, Step::Done)
            },
        }
    }

    /// No syncer follows the chain, and none is on its way.
    pub open spec fn lacks_syncer(self, chain: Chain) -> bool {
        !self.syncer_services.contains_key(chain) && !self.spawning_services.contains_key(
            ServiceId::Syncer(chain),
        )
    }

    /// A syncer was launched and has no clients yet.
    pub open spec fn syncer_launched(self, chain: Chain) -> State {
        State {
            syncer_clients: self.syncer_clients.insert(chain, Set::empty()),
            spawning_services: self.spawning_services.insert(
                ServiceId::Syncer(chain),
                ServiceId::Farcasterd,
            ),
            ..self
        }
    }

    /// The swap is a client of the chain's syncer, if the syncer has clients.
    pub open spec fn syncer_joined(self, chain: Chain, swap: SwapId) -> State {
        if self.syncer_clients.contains_key(chain) {
            State {
                syncer_clients: self.syncer_clients.insert(
                    chain,
                    self.syncer_clients[chain].insert(swap),
                ),
                ..self
            }
        } else {
            self
        }
    }

    /// The syncers of a swap are brought up, first for Bitcoin and then for Monero, and then the
    /// swap is started. A syncer that is missing is launched.
    pub open spec fn syncers_up(
        pre: State,
        coin: Coin,
        start: Start,
        post: State,
        step: Step,
    ) -> bool
        decreases (if coin == Coin::Bitcoin { 1int } else { 0int }),
    {
        let chain = Chain { coin, network: start.network };
        if pre.lacks_syncer(chain) {
            match launch::syncer_words(pre.config, chain) {
                Some(words) => {
                    &&& post == pre
                    &&& step matches Step::Launch(task, AfterLaunch::Syncer { chain: c, start: s })
                    &&& task.is(Daemon::Syncerd, words)
                    &&& c == chain
                    &&& s@ == start
                },
                None => stays(pre, post, step, Step::Fail(Error::InvalidConfig)),
            }
        } else {
            let s = pre.syncer_joined(chain, start.swap);
            match coin {
                Coin::Bitcoin => State::syncers_up(s, Coin::Monero, start, post, step),
                Coin::Monero => State::start_swap(s, start, post, step),
            }
        }
    }

    /// The swap's daemon is told to make or to take the swap.
    pub open spec fn start_swap(pre: State, start: Start, post: State, step: Step) -> bool {
        &&& post == pre
        &&& step matches Step::Send(e, after)
        &&& after == (AfterSend::SwapStarted {
            role: start.role,
            source: start.source,
            swap: start.init.swap_id,
            report_to: start.init.report_to,
        })
        &&& e.bus == ServiceBus::Ctl
        &&& e.source == pre.identity
        &&& e.dest == start.source
        &&& match start.role {
            TradeRole::Maker => e.request matches Request::MakeSwap(init) && init@ == start.init,
            TradeRole::Taker => e.request matches Request::TakeSwap(init) && init@ == start.init,
        }
    }

    /// The swap runs, and is no longer awaited.
    pub open spec fn swap_started(self, role: TradeRole, source: ServiceId, swap: SwapId) -> State {
        let s = State { running_swaps: self.running_swaps.insert(swap), ..self };
        match role {
            TradeRole::Maker => State { making_swaps: s.making_swaps.remove(source), ..s },
            TradeRole::Taker => State { taking_swaps: s.taking_swaps.remove(source), ..s },
        }
    }
}

// The end of a swap.
impl State {
    /// A swap has ended: what was there for it alone is cleaned up, and the outcome is counted.
    pub open spec fn swap_outcome(
        pre: State,
        source: ServiceId,
        outcome: Outcome,
        post: State,
        step: Step,
    ) -> bool {
        match service::swap_of(source) {
            Some(swap) => State::clean_up_after_swap(pre, swap, outcome, post, step),
            None => stays(pre, post, step, Step::Fail(Error::NotSwapd)),
        }
    }

    /// The daemon of a swap that runs is told to stop; then the rest is cleaned up.
    pub open spec fn clean_up_after_swap(
        pre: State,
        swap: SwapId,
        outcome: Outcome,
        post: State,
        step: Step,
    ) -> bool {
        if pre.running_swaps.contains(swap) {
            &&& post == (State { running_swaps: pre.running_swaps.remove(swap), ..pre })
            &&& terminating(pre.identity, ServiceId::Swap(swap), step)
            &&& step->Send_1 == (AfterSend::SwapStopped { swap, outcome })
        } else {
            State::release_offer(pre, swap, outcome, post, step)
        }
    }

    /// No offer is consumed by the swap any more.
    pub open spec fn offers_released(self, swap: SwapId) -> State {
        State { consumed_offers: table::kept(self.consumed_offers, |s: SwapId| s != swap), ..self }
    }

    /// The offer that the swap consumed is released. Where more than one was, any one of them is
    /// the one whose listener is given up.
    pub open spec fn release_offer(
        pre: State,
        swap: SwapId,
        outcome: Outcome,
        post: State,
        step: Step,
    ) -> bool {
        let s = pre.offers_released(swap);
        if exists|offer: OfferId| #[trigger]
            pre.consumed_offers.contains_key(offer) && pre.consumed_offers[offer] == swap {
            exists|offer: OfferId| #[trigger]
                pre.consumed_offers.contains_key(offer) && pre.consumed_offers[offer] == swap
                    && State::release_listener(s, offer, swap, outcome, post, step)
        } else {
            State::release_syncers(s, swap, outcome, post, step)
        }
    }

    /// The offer is no longer listened for.
    pub open spec fn listener_released(self, offer: OfferId) -> State {
        State {
            peerd_ids: self.peerd_ids.remove(offer),
            node_ids: self.node_ids.remove(offer),
            listens: self.listens.remove(offer),
            ..self
        }
    }

    /// The node that takers of the offer reach.
    pub open spec fn listening_node(self, offer: OfferId) -> NodeAddr {
        NodeAddr { node_id: self.node_ids[offer], remote_addr: self.listens[offer] }
    }

    /// The offer's listener is given up. Its peer daemon is told to stop if no other offer is
    /// listened for at the same address.
    pub open spec fn release_listener(
        pre: State,
        offer: OfferId,
        swap: SwapId,
        outcome: Outcome,
        post: State,
        step: Step,
    ) -> bool {
        if pre.listens.contains_key(offer) && pre.node_ids.contains_key(offer) {
            let s = pre.listener_released(offer);
            let node = pre.listening_node(offer);
            if !s.listens.values().contains(node.remote_addr) && s.connections.contains(node) {
                &&& post == (State { connections: s.connections.remove(node), ..s })
                &&& terminating(pre.identity, ServiceId::Peer(node), step)
                &&& step->Send_1 == (AfterSend::PeerStopped { swap, outcome })
            } else {
                State::release_syncers(s, swap, outcome, post, step)
            }
        } else {
            State::release_syncers(pre, swap, outcome, post, step)
        }
    }

    /// The swap is no client of any syncer.
    pub open spec fn syncers_left(self, swap: SwapId) -> State {
        State {
            syncer_clients: self.syncer_clients.map_values(|s: Set<SwapId>| s.remove(swap)),
            ..self
        }
    }

    /// The chains whose syncers have no clients.
    pub open spec fn idle_syncers(self) -> Set<Chain> {
        table::kept(self.syncer_clients, |s: Set<SwapId>| s == Set::<SwapId>::empty()).dom()
    }

    /// The swap leaves its syncers, and those without clients are told to stop, in any order.
    pub open spec fn release_syncers(
        pre: State,
        swap: SwapId,
        outcome: Outcome,
        post: State,
        step: Step,
    ) -> bool {
        let s = pre.syncers_left(swap);
        exists|idle: Seq<Chain>| #[trigger]
            table::lists(idle, s.idle_syncers()) && State::stop_syncers(
                s,
                swap,
                idle,
                outcome,
                post,
                step,
            )
    }

    /// Syncers are told to stop, the last of the list first; then the outcome is counted.
    pub open spec fn stop_syncers(
        pre: State,
        swap: SwapId,
        idle: Seq<Chain>,
        outcome: Outcome,
        post: State,
        step: Step,
    ) -> bool {
        if idle.len() == 0 {
            post == pre.outcome_counted(outcome) && step is Done
        } else {
            &&& post == pre
            &&& terminating(pre.identity, ServiceId::Syncer(idle.last()), step)
            &&& step->Send_1 matches AfterSend::SyncerStopped { swap: s, chain, rest, outcome: o }
            &&& s == swap
            &&& chain == idle.last()
            &&& rest@ == idle.drop_last()
            &&& o == outcome
        }
    }

    /// The outcome is counted, and only syncers with clients are registered.
    pub open spec fn outcome_counted(self, outcome: Outcome) -> State {
        State {
            syncer_services: self.syncer_services.restrict(self.syncer_clients.dom()),
            stats: self.stats.with_outcome(outcome),
            ..self
        }
    }
}

// The launch of a swap.
impl State {
    /// The node that a swap for the offer is run with. A maker has it from the listener of the
    /// offer, a taker from the offer itself.
    pub open spec fn counterparty(self, role: TradeRole, offer: PublicTerms) -> Option<NodeAddr> {
        match role {
            TradeRole::Maker => if self.listens.contains_key(offer.uuid())
                && self.node_ids.contains_key(offer.uuid()) {
                Some(self.listening_node(offer.uuid()))
            } else {
                None
            },
            TradeRole::Taker => Some(
                NodeAddr {
                    node_id: offer.node_id,
                    remote_addr: RemoteSocketAddr::Ftcp(offer.peer_address),
                },
            ),
        }
    }

    /// The daemon that connects to the node: the one that the taker's commitment came from, if
    /// one did.
    pub open spec fn peer_daemon(self, offer: OfferId, node: NodeAddr) -> ServiceId {
        if self.peerd_ids.contains_key(offer) {
            self.peerd_ids[offer]
        } else {
            ServiceId::Peer(node)
        }
    }

    /// The offer is taken, and a swap for it was started.
    pub open spec fn offer_consumed(self, offer: PublicTerms, swap: SwapId) -> State {
        State {
            public_offers: self.public_offers.remove(offer.text@),
            consumed_offers: self.consumed_offers.insert(offer.uuid(), swap),
            stats: self.stats.with_initiated(),
            ..self
        }
    }

    /// A swap is launched for an offer that is registered, which then no longer is.
    pub open spec fn launch_swap(pre: State, req: LaunchSwap, post: State, step: Step) -> bool {
        let offer = req.public_offer@;
        match pre.counterparty(req.local_trade_role, offer) {
            Some(node) => if pre.public_offers.contains_key(offer.text@) {
                let s = pre.offer_consumed(offer, req.swap_id);
                &&& post == s
                &&& step matches Step::Launch(task, AfterLaunch::Swapd { role, init, network })
                &&& task.is(
                    Daemon::Swapd,
                    launch::swapd_words(req.swap_id, offer.text@, req.local_trade_role),
                )
                &&& role == req.local_trade_role
                &&& network == offer.offer.network
                &&& init@ == (SwapStart {
                    peerd: pre.peer_daemon(offer.uuid(), node),
                    report_to: Some(pre.identity),
                    local_params: req.local_params@,
                    swap_id: req.swap_id,
                    remote_commit: crate::rpc::parcel_of(req.remote_commit),
                    funding_address: req.funding_address,
                })
            } else {
                stays(pre, post, step, Step::Fail(Error::UnknownOffer))
            },
            None => stays(pre, post, step, Step::Done),
        }
    }

    /// The swap's daemon was launched, and its hello is awaited.
    pub open spec fn swap_awaited(self, role: TradeRole, init: SwapStart, network: Network) -> State {
        let k = ServiceId::Swap(init.swap_id);
        match role {
            TradeRole::Maker => State {
                making_swaps: self.making_swaps.insert(k, (init, network)),
                ..self
            },
            TradeRole::Taker => State {
                taking_swaps: self.taking_swaps.insert(k, (init, network)),
                ..self
            },
        }
    }
}

// Keys.
impl State {
    /// A request waits for the wallet to give keys.
    pub open spec fn awaiting_keys(
        self,
        id: RequestId,
        source: ServiceId,
        request: Request,
    ) -> State {
        State {
            pending_requests: self.pending_requests.insert(id, (request, source)),
            ..self
        }
    }

    /// The wallet is asked for keys under an identifier, and the request waits for them.
    pub open spec fn await_keys(
        pre: State,
        id: RequestId,
        source: ServiceId,
        request: Request,
        post: State,
        step: Step,
    ) -> bool {
        &&& post == pre.awaiting_keys(id, source, request)
        &&& replying(ServiceId::Farcasterd, ServiceId::Wallet, step)
        &&& sent_request(step) == (Request::GetKeys { token: pre.wallet_token, id })
    }

    /// The wallet is asked for keys under some identifier, and the request waits for them.
    pub open spec fn get_secret(
        pre: State,
        source: ServiceId,
        request: Request,
        post: State,
        step: Step,
    ) -> bool {
        exists|id: RequestId| #[trigger]
            State::await_keys(pre, id, source, request, post, step)
    }
}

// Offers that are made here.
impl State {
    /// What is found where an address is looked up among those that are listened at: the node key
    /// of some offer that is listened for there, or nothing if that offer has none.
    pub open spec fn bound(self, addr: RemoteSocketAddr, key: Option<PublicKey>) -> bool {
        if self.listens.values().contains(addr) {
            exists|offer: OfferId| #[trigger]
                self.listens.contains_key(offer) && self.listens[offer] == addr && key == (
                if self.node_ids.contains_key(offer) {
                    Some(self.node_ids[offer])
                } else {
                    None
                })
        } else {
            key is None
        }
    }

    /// The offer is listened for.
    pub open spec fn listener_added(
        self,
        offer: OfferId,
        addr: RemoteSocketAddr,
        key: PublicKey,
    ) -> State {
        State {
            listens: self.listens.insert(offer, addr),
            node_ids: self.node_ids.insert(offer, key),
            ..self
        }
    }

    /// An offer is made. Where its address is not listened at yet, that needs keys, which are
    /// asked for if the request has none, and a peer daemon.
    pub open spec fn make_offer(
        pre: State,
        source: ServiceId,
        req: ProtoPublicOffer,
        post: State,
        step: Step,
    ) -> bool {
        exists|key: Option<PublicKey>| #[trigger]
            pre.bound(req.bind_addr, key) && match key {
                Some(key) => State::register_offer(
                    pre.listener_added(req.offer@.uuid, req.bind_addr, key),
                    making(source, req, key),
                    Notice::AlreadyListening(req.bind_addr),
                    post,
                    step,
                ),
                None => match (req.peer_secret_key, req.peer_public_key) {
                    (Some(sk), Some(pk)) => {
                        &&& post == pre.listener_added(req.offer@.uuid, req.bind_addr, pk)
                        &&& State::listen(
                            pre,
                            req.bind_addr,
                            sk,
                            making(source, req, pk),
                            step,
                        )
                    },
                    _ => State::get_secret(pre, source, Request::MakeOffer(req), post, step),
                },
            }
    }

    /// A peer daemon is launched that listens. Only framed TCP on an IP address can be listened
    /// on.
    pub open spec fn listen(
        pre: State,
        addr: RemoteSocketAddr,
        key: crate::ident::SecretKey,
        making: Making,
        step: Step,
    ) -> bool {
        match addr {
            RemoteSocketAddr::Ftcp(inet) => match inet.host() {
                Some((ip, port)) => {
                    &&& step matches Step::Launch(task, after)
                    &&& task.is(
                        Daemon::Peerd,
                        launch::listen_words(ip, port, key, pre.wallet_token@),
                    )
                    &&& after == AfterLaunch::Listener(making)
                },
                None => step == Step::Fail(Error::NoSocketAddr),
            },
            _ => step == Step::Fail(Error::OnlyTcp),
        }
    }

    /// The offer is registered, and the addresses that its maker is to be paid at are kept under
    /// its text.
    pub open spec fn offer_registered(
        self,
        offer: PublicTerms,
        arb: BitcoinAddress,
        acc: Option<MoneroAddress>,
    ) -> State {
        State {
            public_offers: self.public_offers.insert(offer.text@, offer),
            arb_addrs: self.arb_addrs.insert(offer.text@, arb),
            acc_addrs: match acc {
                Some(acc) => self.acc_addrs.insert(offer.text@, acc),
                None => self.acc_addrs,
            },
            ..self
        }
    }

    /// An offer that is listened for is made public and registered, unless it is registered
    /// already. Whoever asked is told.
    pub open spec fn register_offer(
        pre: State,
        m: Making,
        listening: Notice,
        post: State,
        step: Step,
    ) -> bool {
        let first = Report { to: m.source, request: Request::Progress(listening) };
        match m.offer@.made_public(m.node_id, m.public_addr.socket()) {
            Some(text) => if pre.public_offers.contains_key(text) {
                &&& post == pre
                &&& reporting(
                    pre.identity,
                    seq![
                        first,
                        Report {
                            to: m.source,
                            request: Request::Failure { code: 1, info: Notice::OfferKnown },
                        },
                    ],
                    step,
                )
            } else {
                exists|public: PublicTerms| #[trigger]
                    is_public(public, m, text) && match crate::chain::monero_network(
                        m.accordant_addr@,
                    ) {
                        Ok(network) => {
                            &&& post == pre.offer_registered(
                                public,
                                m.arbitrating_addr,
                                Some(MoneroAddress { network, text: m.accordant_addr }),
                            )
                            &&& reporting(
                                pre.identity,
                                seq![
                                    first,
                                    Report {
                                        to: m.source,
                                        request: Request::Success(
                                            Some(Notice::ShareOffer(public.text)),
                                        ),
                                    },
                                ],
                                step,
                            )
                        },
                        Err(words) => {
                            &&& post == pre.offer_registered(public, m.arbitrating_addr, None)
                            &&& step matches Step::Fail(Error::AddressFormat(w))
                            &&& text::text_of(w) == words
                        },
                    }
            },
            None => stays(pre, post, step, Step::Fail(Error::InvalidKey)),
        }
    }
}

/// What is left of a request to make an offer once it is listened for.
pub open spec fn making(source: ServiceId, req: ProtoPublicOffer, key: PublicKey) -> Making {
    Making {
        source,
        offer: req.offer,
        node_id: key,
        public_addr: req.public_addr,
        arbitrating_addr: req.arbitrating_addr,
        accordant_addr: req.accordant_addr,
    }
}

/// The public offer that an offer and its node make up, with the given text, which is read as the
/// offer again if the node's socket has a port.
pub open spec fn is_public(offer: PublicTerms, m: Making, text: Seq<char>) -> bool {
    &&& offer.text@ == text
    &&& offer.version == 1
    &&& offer.offer == m.offer@
    &&& offer.agree()
    &&& offer.node_id == m.node_id
    &&& offer.peer_address == m.public_addr.socket()
    &&& has_port(offer.peer_address) ==> offer::offer_named(text) == Ok::<
        Seq<char>,
        Option<Seq<char>>,
    >(text)
}

/// The socket is an onion service, or its port is not zero.
pub open spec fn has_port(addr: InetSocketAddr) -> bool {
    addr.host() matches Some((_, port)) ==> port != 0
}

// Offers that are taken here.
impl State {
    /// The offer is registered, or was.
    pub open spec fn knows_offer(self, offer: PublicTerms) -> bool {
        self.public_offers.contains_key(offer.text@) || self.consumed_offers.contains_key(
            offer.uuid(),
        )
    }

    /// A public offer is taken. An offer that is known is not taken again. A peer that is not
    /// connected needs keys, which are asked for if the request has none, and a peer daemon.
    pub open spec fn take_offer(
        pre: State,
        source: ServiceId,
        req: PubOffer,
        post: State,
        step: Step,
    ) -> bool {
        let peer = maker_of(req.public_offer@);
        if pre.knows_offer(req.public_offer@) {
            &&& post == pre
            &&& reporting(
                pre.identity,
                seq![
                    Report {
                        to: source,
                        request: Request::Failure {
                            code: 1,
                            info: Notice::OfferTaken(req.public_offer@.text),
                        },
                    },
                ],
                step,
            )
        } else if pre.connections.contains(peer) {
            State::forward_take(
                pre,
                source,
                req,
                Notice::AlreadyConnected(peer),
                post,
                step,
            )
        } else {
            match req.peer_secret_key {
                Some(sk) => {
                    &&& post == pre
                    &&& step matches Step::Watch(task, after)
                    &&& task.is(
                        Daemon::Peerd,
                        launch::connect_words(peer, sk, pre.wallet_token@),
                    )
                    &&& after == (AfterWatch { source, peer, take: req })
                },
                None => State::get_secret(pre, source, Request::TakeOffer(req), post, step),
            }
        }
    }

    /// A peer that is connected to: the offer is registered and handed to the wallet, without the
    /// secret key. Whoever asked is told.
    pub open spec fn forward_take(
        pre: State,
        source: ServiceId,
        req: PubOffer,
        connected: Notice,
        post: State,
        step: Step,
    ) -> bool {
        let offer = req.public_offer@;
        &&& offer.agree()
        &&& post == (State {
            public_offers: pre.public_offers.insert(offer.text@, offer),
            ..pre
        })
        &&& step matches Step::Send(e, AfterSend::Reports(reports))
        &&& e == (Envelope {
            bus: ServiceBus::Ctl,
            source: pre.identity,
            dest: ServiceId::Wallet,
            request: Request::TakeOffer(PubOffer { peer_secret_key: None, ..req }),
        })
        &&& reports@ == seq![
            Report { to: source, request: Request::Progress(connected) },
            Report {
                to: source,
                request: Request::Success(Some(Notice::OfferRegistered(offer.uuid()))),
            },
        ]
    }

    /// A peer daemon was launched to connect to the maker of an offer. If it still runs, the
    /// offer is taken; else whoever asked is told what went wrong.
    pub open spec fn watched(
        pre: State,
        after: AfterWatch,
        result: Watched,
        post: State,
        step: Step,
    ) -> bool {
        match result {
            Watched::Running(pid) => State::forward_take(
                State {
                    spawning_services: pre.spawning_services.insert(
                        ServiceId::Peer(after.peer),
                        after.source,
                    ),
                    ..pre
                },
                after.source,
                after.take,
                Notice::PeerdLaunched(pid),
                post,
                step,
            ),
            _ => {
                &&& post == pre
                &&& reporting(
                    pre.identity,
                    seq![
                        Report {
                            to: after.source,
                            request: Request::Failure {
                                code: 1,
                                info: Notice::Trouble(
                                    match result {
                                        Watched::Lost(words) => Error::Launch(words),
                                        _ => Error::InvalidEndpoint,
                                    },
                                ),
                            },
                        },
                    ],
                    step,
                )
            },
        }
    }
}

/// The node that made a public offer.
pub open spec fn maker_of(offer: PublicTerms) -> NodeAddr {
    NodeAddr {
        node_id: offer.node_id,
        remote_addr: RemoteSocketAddr::Ftcp(offer.peer_address),
    }
}

// The keys that a request waited for.
impl State {
    /// The wallet gives keys. The request that waits for them under the identifier waits no
    /// longer, and is carried out with them.
    pub open spec fn keys(
        pre: State,
        secret_key: crate::ident::SecretKey,
        public_key: PublicKey,
        id: RequestId,
        post: State,
        step: Step,
    ) -> bool {
        if pre.pending_requests.contains_key(id) {
            let (request, source) = pre.pending_requests[id];
            let s = State { pending_requests: pre.pending_requests.remove(id), ..pre };
            match request {
                Request::MakeOffer(req) => State::make_offer(
                    s,
                    source,
                    ProtoPublicOffer {
                        peer_secret_key: Some(secret_key),
                        peer_public_key: Some(public_key),
                        ..req
                    },
                    post,
                    step,
                ),
                Request::TakeOffer(req) => State::take_offer(
                    s,
                    source,
                    PubOffer { peer_secret_key: Some(secret_key), ..req },
                    post,
                    step,
                ),
                _ => stays(s, post, step, Step::Fail(Error::UnexpectedPending)),
            }
        } else {
            stays(pre, post, step, Step::Done)
        }
    }
}

// Lists for clients.
impl State {
    /// The state stays, and a client is answered.
    pub open spec fn answer(pre: State, dest: ServiceId, post: State, step: Step) -> bool {
        post == pre && replying(ServiceId::Farcasterd, dest, step)
    }

    /// The client learns what there is to know of the node.
    pub open spec fn get_info(
        pre: State,
        source: ServiceId,
        now: Moment,
        post: State,
        step: Step,
    ) -> bool {
        &&& State::answer(pre, source, post, step)
        &&& sent_request(step) matches Request::NodeInfo(info)
        &&& table::lists(info.node_ids@, pre.node_ids.values())
        &&& table::lists_values(info.listens@, pre.listens)
        &&& info.uptime == now.past(pre.started)
        &&& info.since == pre.started.epoch_secs()
        &&& table::lists(info.peers@, pre.connections)
        &&& table::lists(info.swaps@, pre.running_swaps)
        &&& table::lists_values(offer::offer_views(info.offers@), pre.public_offers)
    }

    /// The client learns the peers that are connected.
    pub open spec fn list_peers(pre: State, source: ServiceId, post: State, step: Step) -> bool {
        &&& State::answer(pre, source, post, step)
        &&& sent_request(step) matches Request::PeerList(peers)
        &&& table::lists(peers@, pre.connections)
    }

    /// The client learns the swaps that run.
    pub open spec fn list_swaps(pre: State, source: ServiceId, post: State, step: Step) -> bool {
        &&& State::answer(pre, source, post, step)
        &&& sent_request(step) matches Request::SwapList(swaps)
        &&& table::lists(swaps@, pre.running_swaps)
    }

    /// The public offers that no swap has consumed.
    pub open spec fn open_offers(self) -> Map<Seq<char>, PublicTerms> {
        table::kept(
            self.public_offers,
            |o: PublicTerms| !self.consumed_offers.contains_key(o.uuid()),
        )
    }

    /// The client learns the public offers that no swap has consumed.
    pub open spec fn list_offers(pre: State, source: ServiceId, post: State, step: Step) -> bool {
        &&& State::answer(pre, source, post, step)
        &&& sent_request(step) matches Request::OfferList(offers)
        &&& table::lists_values(offer::offer_views(offers@), pre.open_offers())
    }

    /// The client learns the addresses that are listened at, once for each offer.
    pub open spec fn list_listens(pre: State, source: ServiceId, post: State, step: Step) -> bool {
        &&& State::answer(pre, source, post, step)
        &&& sent_request(step) matches Request::ListenList(urls)
        &&& table::lists_values(
            launch::words(urls@),
            pre.listens.map_values(|a: RemoteSocketAddr| a.url()),
        )
    }
}

// Progress of swaps.
impl State {
    /// What a service says of its progress is kept.
    pub open spec fn progressed(self, source: ServiceId, request: Request) -> State {
        let queue = if self.progress.contains_key(source) {
            self.progress[source]
        } else {
            Seq::empty()
        };
        State { progress: self.progress.insert(source, queue.push(request)), ..self }
    }

    /// What a swap said of its progress is told over, the last of it as a success. A client that
    /// asks for a swap that said nothing learns whether the swap is awaited or unknown.
    pub open spec fn read_progress(
        pre: State,
        source: ServiceId,
        swap: SwapId,
        post: State,
        step: Step,
    ) -> bool {
        let k = ServiceId::Swap(swap);
        &&& post == pre
        &&& if pre.progress.contains_key(k) {
            reporting(pre.identity, retold(source, pre.progress[k]), step)
        } else {
            &&& replying(pre.identity, source, step)
            &&& sent_request(step) == (Request::Failure {
                code: 1,
                info: if pre.making_swaps.contains_key(k) || pre.taking_swaps.contains_key(k) {
                    Notice::NoProgressYet
                } else {
                    Notice::UnknownSwapd
                },
            })
        }
    }
}

/// What a request says of progress, if it does.
pub open spec fn said(request: Request) -> Option<Notice> {
    match request {
        Request::Progress(x) => Some(x),
        Request::Success(x) => x,
        Request::Failure { code: _, info } => Some(info),
        _ => None,
    }
}

/// What was said is told over, the last of it as a success.
pub open spec fn retold(to: ServiceId, queue: Seq<Request>) -> Seq<Report> {
    Seq::new(
        queue.len(),
        |i: int|
            Report {
                to,
                request: if i < queue.len() - 1 {
                    Request::Progress(said(queue[i])->0)
                } else {
                    Request::Success(Some(said(queue[i])->0))
                },
            },
    )
}

// Funding of swaps.
impl State {
    /// The swap waits for coins, or had them sent.
    pub open spec fn funding_noted(self, info: FundingInfo, auto: bool) -> State {
        match info {
            FundingInfo::Bitcoin { swap_id, address, amount } => State {
                funding_btc: self.funding_btc.insert(swap_id, (address, amount, auto)),
                ..self
            },
            FundingInfo::Monero { swap_id, address, amount } => State {
                funding_xmr: self.funding_xmr.insert(swap_id, (address, amount, auto)),
                ..self
            },
        }
    }

    /// The wallet that coins are sent from without asking.
    pub open spec fn funding_wallet(self, info: FundingInfo) -> Option<FundingWallet> {
        match self.config.funding_for(funding_network(info)) {
            Some(servers) => match info {
                FundingInfo::Bitcoin { .. } => Some(
                    FundingWallet::Bitcoin {
                        rpc: servers.bitcoin_rpc,
                        cookie_path: servers.bitcoin_cookie_path,
                    },
                ),
                FundingInfo::Monero { .. } => Some(
                    FundingWallet::Monero { rpc: servers.monero_rpc_wallet },
                ),
            },
            None => None,
        }
    }

    /// A swap waits for coins. They are sent if that is set up for the network; else a client can
    /// ask for what is to be sent.
    pub open spec fn funding_info(pre: State, info: FundingInfo, post: State, step: Step) -> bool {
        let s = State { stats: pre.stats.with_awaiting(funding_coin(info)), ..pre };
        match pre.funding_wallet(info) {
            Some(wallet) => stays(s, post, step, Step::Fund(info, wallet)),
            None => stays(s.funding_noted(info, false), post, step, Step::Done),
        }
    }

    /// The swap waits for the coin.
    pub open spec fn awaits_funding(self, swap: SwapId, coin: Coin) -> bool {
        match coin {
            Coin::Bitcoin => self.funding_btc.contains_key(swap),
            Coin::Monero => self.funding_xmr.contains_key(swap),
        }
    }

    /// The swap does not wait for the coin.
    pub open spec fn funding_settled(self, swap: SwapId, coin: Coin) -> State {
        match coin {
            Coin::Bitcoin => State { funding_btc: self.funding_btc.remove(swap), ..self },
            Coin::Monero => State { funding_xmr: self.funding_xmr.remove(swap), ..self },
        }
    }

    /// A swap that waited for a coin got it.
    pub open spec fn funding_completed(
        pre: State,
        source: ServiceId,
        coin: Coin,
        post: State,
        step: Step,
    ) -> bool {
        match service::swap_of(source) {
            Some(swap) => if pre.awaits_funding(swap, coin) {
                let s = State { stats: pre.stats.with_funded(coin), ..pre };
                stays(s.funding_settled(swap, coin), post, step, Step::Done)
            } else {
                stays(pre, post, step, Step::Done)
            },
            None => stays(pre, post, step, Step::Fail(Error::NotSwapd)),
        }
    }

    /// A swap that waited for a coin was called off. It is counted as one that waited for Monero,
    /// whichever the coin.
    pub open spec fn funding_canceled(
        pre: State,
        source: ServiceId,
        coin: Coin,
        post: State,
        step: Step,
    ) -> bool {
        match service::swap_of(source) {
            Some(swap) => if pre.awaits_funding(swap, coin) {
                let s = State { stats: pre.stats.with_canceled(), ..pre };
                stays(s.funding_settled(swap, coin), post, step, Step::Done)
            } else {
                stays(pre, post, step, Step::Done)
            },
            None => stays(pre, post, step, Step::Fail(Error::NotSwapd)),
        }
    }

    /// The swaps that wait for a coin, and whether they had it sent.
    pub open spec fn fundings(self, coin: Coin) -> Map<SwapId, (FundingInfo, bool)> {
        match coin {
            Coin::Bitcoin => bitcoin_fundings(self.funding_btc),
            Coin::Monero => monero_fundings(self.funding_xmr),
        }
    }

    /// A client is to learn which swaps wait for a coin that was not sent: what they wait for is
    /// put into words.
    pub open spec fn needs_funding(
        pre: State,
        source: ServiceId,
        coin: Coin,
        post: State,
        step: Step,
    ) -> bool {
        &&& post == pre
        &&& step matches Step::Describe(infos, after)
        &&& table::lists_values(not_sent(infos@), unsent(pre.fundings(coin)))
        &&& after.dest == source
        &&& after.total == pre.fundings(coin).dom().len()
    }

    /// What swaps wait for was put into words, and the client learns them as one text.
    pub open spec fn described(
        pre: State,
        after: AfterDescribe,
        lines: Seq<Seq<char>>,
        post: State,
        step: Step,
    ) -> bool {
        &&& post == pre
        &&& replying(pre.identity, after.dest, step)
        &&& sent_request(step) matches Request::String(text)
        &&& text@ == in_lines(lines, after.total as nat)
    }
}

/// The lines as one text. A line ends with a newline if fewer lines come before it than there are
/// swaps, sent or not, without one.
pub open spec fn in_lines(lines: Seq<Seq<char>>, total: nat) -> Seq<char>
    decreases lines.len(),
{
    if lines.len() == 0 {
        Seq::empty()
    } else {
        let text = in_lines(lines.drop_last(), total) + lines.last();
        if lines.len() - 1 < total - 1 {
            text + "\n"@
        } else {
            text
        }
    }
}

/// The swaps that wait for Bitcoin, and whether they had it sent.
pub open spec fn bitcoin_fundings(m: Map<SwapId, (BitcoinAddress, u64, bool)>) -> Map<
    SwapId,
    (FundingInfo, bool),
> {
    Map::new(
        |k: SwapId| m.contains_key(k),
        |k: SwapId|
            (
                FundingInfo::Bitcoin { swap_id: k, address: m[k].0, amount: m[k].1 },
                m[k].2,
            ),
    )
}

/// The swaps that wait for Monero, and whether they had it sent.
pub open spec fn monero_fundings(m: Map<SwapId, (MoneroAddress, u64, bool)>) -> Map<
    SwapId,
    (FundingInfo, bool),
> {
    Map::new(
        |k: SwapId| m.contains_key(k),
        |k: SwapId|
            (FundingInfo::Monero { swap_id: k, address: m[k].0, amount: m[k].1 }, m[k].2),
    )
}

/// The swaps whose coins were not sent.
pub open spec fn unsent(all: Map<SwapId, (FundingInfo, bool)>) -> Map<SwapId, (FundingInfo, bool)> {
    table::kept(all, |e: (FundingInfo, bool)| !e.1)
}

/// Coins that were not sent.
pub open spec fn not_sent(infos: Seq<FundingInfo>) -> Seq<(FundingInfo, bool)> {
    Seq::new(infos.len(), |i: int| (infos[i], false))
}

/// The coin that a swap waits for.
pub open spec fn funding_coin(info: FundingInfo) -> Coin {
    match info {
        FundingInfo::Bitcoin { .. } => Coin::Bitcoin,
        FundingInfo::Monero { .. } => Coin::Monero,
    }
}

/// The network that a swap waits for coins on.
pub open spec fn funding_network(info: FundingInfo) -> Network {
    match info {
        FundingInfo::Bitcoin { address, .. } => address.network.kind(),
        FundingInfo::Monero { address, .. } => address.network.kind(),
    }
}

// The peer protocol.
impl State {
    /// A taker commits to a swap. If the offer is registered, the wallet learns the addresses that
    /// the maker is to be paid at, and then the commitment.
    pub open spec fn taker_commit(
        pre: State,
        source: ServiceId,
        commit: TakeCommit,
        post: State,
        step: Step,
    ) -> bool {
        match offer::offer_named(commit.public_offer@) {
            Ok(text) => if pre.public_offers.contains_key(text) {
                State::pay_arbitrating(
                    pre,
                    source,
                    pre.public_offers[text].uuid(),
                    text,
                    commit,
                    post,
                    step,
                )
            } else {
                stays(pre, post, step, Step::Done)
            },
            Err(words) => {
                &&& post == pre
                &&& step matches Step::Fail(Error::OfferFormat(w))
                &&& text::text_of(w) == words
            },
        }
    }

    /// The wallet learns the address on the arbitrating chain, which is kept no longer.
    pub open spec fn pay_arbitrating(
        pre: State,
        source: ServiceId,
        offer: OfferId,
        text: Seq<char>,
        commit: TakeCommit,
        post: State,
        step: Step,
    ) -> bool {
        if pre.arb_addrs.contains_key(text) {
            &&& post == (State { arb_addrs: pre.arb_addrs.remove(text), ..pre })
            &&& step matches Step::Send(e, after)
            &&& e == to_wallet(
                pre.identity,
                Request::BitcoinAddress(commit.swap_id, pre.arb_addrs[text]),
            )
            &&& after matches AfterSend::CommitAccordant { source: s, offer: o, text: t, commit: c }
            &&& s == source
            &&& o == offer
            &&& t@ == text
            &&& c == commit
        } else {
            State::pay_accordant(pre, source, offer, text, commit, post, step)
        }
    }

    /// The wallet learns the address on the accordant chain, which is kept no longer.
    pub open spec fn pay_accordant(
        pre: State,
        source: ServiceId,
        offer: OfferId,
        text: Seq<char>,
        commit: TakeCommit,
        post: State,
        step: Step,
    ) -> bool {
        if pre.acc_addrs.contains_key(text) {
            &&& post == (State { acc_addrs: pre.acc_addrs.remove(text), ..pre })
            &&& step == Step::Send(
                to_wallet(
                    pre.identity,
                    Request::MoneroAddress(commit.swap_id, pre.acc_addrs[text]),
                ),
                AfterSend::CommitForward { source, offer, commit },
            )
        } else {
            State::forward_commit(pre, source, offer, commit, post, step)
        }
    }

    /// The wallet learns the commitment, in the name of the peer daemon that it came from, and
    /// that daemon is kept as the one that the swap speaks through.
    pub open spec fn forward_commit(
        pre: State,
        source: ServiceId,
        offer: OfferId,
        commit: TakeCommit,
        post: State,
        step: Step,
    ) -> bool {
        &&& post == (State { peerd_ids: pre.peerd_ids.insert(offer, source), ..pre })
        &&& step == Step::Send(
            to_wallet(source, Request::Protocol(Msg::TakerCommit(commit))),
            AfterSend::Finish,
        )
    }

    /// A request over the bus of the peer protocol: a greeting, which is ignored, or a taker's
    /// commitment.
    pub open spec fn handle_rpc_msg(
        pre: State,
        source: ServiceId,
        request: Request,
        post: State,
        step: Step,
    ) -> bool {
        match request {
            Request::Hello => stays(pre, post, step, Step::Done),
            Request::Protocol(Msg::TakerCommit(commit)) => State::taker_commit(
                pre,
                source,
                commit,
                post,
                step,
            ),
            _ => stays(
                pre,
                post,
                step,
                Step::Fail(Error::NotSupported(ServiceBus::Msg, request.kind())),
            ),
        }
    }
}

/// A request to the wallet over the bus of the peer protocol.
pub open spec fn to_wallet(source: ServiceId, request: Request) -> Envelope {
    Envelope { bus: ServiceBus::Msg, source, dest: ServiceId::Wallet, request }
}

// All requests.
impl State {
    /// A request over the control bus. Requests that are not meant for this daemon are ignored.
    pub open spec fn handle_rpc_ctl(
        pre: State,
        source: ServiceId,
        request: Request,
        now: Moment,
        post: State,
        step: Step,
    ) -> bool {
        match request {
            Request::Hello => State::hello(pre, source, post, step),
            Request::SwapOutcome(outcome) => State::swap_outcome(pre, source, outcome, post, step),
            Request::LaunchSwap(req) => State::launch_swap(pre, req, post, step),
            Request::Keys { secret_key, public_key, id } => State::keys(
                pre,
                secret_key,
                public_key,
                id,
                post,
                step,
            ),
            Request::GetInfo => State::get_info(pre, source, now, post, step),
            Request::ListPeers => State::list_peers(pre, source, post, step),
            Request::ListSwaps => State::list_swaps(pre, source, post, step),
            Request::ListOffers => State::list_offers(pre, source, post, step),
            Request::ListListens => State::list_listens(pre, source, post, step),
            Request::MakeOffer(req) => State::make_offer(pre, source, req, post, step),
            Request::TakeOffer(req) => State::take_offer(pre, source, req, post, step),
            Request::Progress(_) => stays(pre.progressed(source, request), post, step, Step::Done),
            Request::Success(_) => stays(pre.progressed(source, request), post, step, Step::Done),
            Request::Failure { .. } => stays(
                pre.progressed(source, request),
                post,
                step,
                Step::Done,
            ),
            Request::ReadProgress(swap) => State::read_progress(pre, source, swap, post, step),
            Request::FundingInfo(info) => State::funding_info(pre, info, post, step),
            Request::FundingCompleted(coin) => State::funding_completed(
                pre,
                source,
                coin,
                post,
                step,
            ),
            Request::FundingCanceled(coin) => State::funding_canceled(
                pre,
                source,
                coin,
                post,
                step,
            ),
            Request::NeedsFunding(coin) => State::needs_funding(pre, source, coin, post, step),
            _ => stays(pre, post, step, Step::Done),
        }
    }

    /// A request over any bus.
    pub open spec fn handle(
        pre: State,
        bus: ServiceBus,
        source: ServiceId,
        request: Request,
        now: Moment,
        post: State,
        step: Step,
    ) -> bool {
        match bus {
            ServiceBus::Msg => State::handle_rpc_msg(pre, source, request, post, step),
            ServiceBus::Ctl => State::handle_rpc_ctl(pre, source, request, now, post, step),
            ServiceBus::Bridge => stays(
                pre,
                post,
                step,
                Step::Fail(Error::NotSupported(ServiceBus::Bridge, request.kind())),
            ),
        }
    }
}

// What comes after a step was carried out.
impl State {
    /// A request was sent, or could not be sent. Only a syncer that cannot be told to stop does
    /// not end what was going on; it then keeps its place.
    pub open spec fn sent(
        pre: State,
        after: AfterSend,
        result: Result<(), String>,
        post: State,
        step: Step,
    ) -> bool {
        match after {
            AfterSend::SyncerStopped { swap, chain, rest, outcome } => State::stop_syncers(
                if result is Ok {
                    State { syncer_clients: pre.syncer_clients.remove(chain), ..pre }
                } else {
                    pre
                },
                swap,
                rest@,
                outcome,
                post,
                step,
            ),
            _ => match result {
                Ok(_) => match after {
                    AfterSend::CommitAccordant {
                        source,
                        offer,
                        text,
                        commit,
                    } => State::pay_accordant(
                        pre,
                        source,
                        offer,
                        text@,
                        commit,
                        post,
                        step,
                    ),
                    AfterSend::CommitForward { source, offer, commit } => State::forward_commit(
                        pre,
                        source,
                        offer,
                        commit,
                        post,
                        step,
                    ),
                    AfterSend::SwapStarted { role, source, swap, report_to: to } => {
                        &&& post == pre.swap_started(role, source, swap)
                        &&& reporting(
                            pre.identity,
                            report_to(to, Request::Progress(Notice::SwapOperational(source))),
                            step,
                        )
                    },
                    AfterSend::SwapStopped { swap, outcome } => State::release_offer(
                        pre,
                        swap,
                        outcome,
                        post,
                        step,
                    ),
                    AfterSend::PeerStopped { swap, outcome } => State::release_syncers(
                        pre,
                        swap,
                        outcome,
                        post,
                        step,
                    ),
                    AfterSend::Reports(rest) => post == pre && reporting(
                        pre.identity,
                        rest@,
                        step,
                    ),
                    _ => stays(pre, post, step, Step::Done),
                },
                Err(words) => stays(pre, post, step, Step::Fail(Error::Send(words))),
            },
        }
    }

    /// A daemon was launched and has a process identifier, or could not be launched.
    pub open spec fn launched(
        pre: State,
        after: AfterLaunch,
        pid: Result<u32, String>,
        post: State,
        step: Step,
    ) -> bool {
        match pid {
            Ok(pid) => match after {
                AfterLaunch::Syncer { chain, start } => {
                    let s = pre.syncer_launched(chain).syncer_joined(chain, start.swap);
                    match chain.coin {
                        Coin::Bitcoin => State::syncers_up(s, Coin::Monero, start@, post, step),
                        Coin::Monero => State::start_swap(s, start@, post, step),
                    }
                },
                AfterLaunch::Listener(m) => State::register_offer(
                    pre,
                    m,
                    Notice::PeerdLaunched(pid),
                    post,
                    step,
                ),
                AfterLaunch::Swapd { role, init, network } => stays(
                    pre.swap_awaited(role, init@, network),
                    post,
                    step,
                    Step::Done,
                ),
            },
            Err(words) => stays(pre, post, step, Step::Fail(Error::Launch(words))),
        }
    }
}

// What the daemon can carry out.
impl State {
    /// Every offer that is listened for at the address has a node key, and there is one.
    pub open spec fn surely_bound(self, addr: RemoteSocketAddr) -> bool {
        &&& self.listens.values().contains(addr)
        &&& forall|offer: OfferId| #[trigger]
            self.listens.contains_key(offer) && self.listens[offer] == addr
                ==> self.node_ids.contains_key(offer)
    }

    /// The request can be carried out: the counts have room, and a count that is to go down is not
    /// zero; an offer to be made comes with both keys or none, unless its address is listened at;
    /// and a swap whose progress is asked for has said something each time.
    pub open spec fn admits(self, source: ServiceId, request: Request) -> bool {
        match request {
            Request::SwapOutcome(outcome) => service::swap_of(source) is Some
                ==> self.stats.outcomes(outcome) < u64::MAX,
            Request::LaunchSwap(req) => self.counterparty(
                req.local_trade_role,
                req.public_offer@,
            ) is Some && self.public_offers.contains_key(req.public_offer@.text@)
                ==> self.stats.initialized < u64::MAX,
            Request::MakeOffer(req) => (req.peer_secret_key is Some <==> req.peer_public_key is Some)
                || self.surely_bound(req.bind_addr),
            Request::FundingInfo(info) => self.stats.awaiting(funding_coin(info)) < u64::MAX,
            Request::FundingCompleted(coin) => service::swap_of(source) matches Some(swap)
                ==> self.awaits_funding(swap, coin) ==> self.stats.funded(coin) < u64::MAX
                && self.stats.awaiting(coin) > 0,
            Request::FundingCanceled(coin) => service::swap_of(source) matches Some(swap)
                ==> self.awaits_funding(swap, coin) ==> self.stats.awaiting_funding_xmr > 0
                && self.stats.funding_canceled_xmr < u64::MAX,
            Request::ReadProgress(swap) => self.progress.contains_key(ServiceId::Swap(swap))
                ==> all_said(self.progress[ServiceId::Swap(swap)]),
            _ => true,
        }
    }

    /// What comes after a request was sent can be carried out: an outcome can be counted.
    pub open spec fn admits_after(self, after: AfterSend) -> bool {
        match after {
            AfterSend::SwapStopped { outcome, .. } => self.stats.outcomes(outcome) < u64::MAX,
            AfterSend::PeerStopped { outcome, .. } => self.stats.outcomes(outcome) < u64::MAX,
            AfterSend::SyncerStopped { outcome, .. } => self.stats.outcomes(outcome) < u64::MAX,
            _ => true,
        }
    }
}

/// Every request says something of progress.
pub open spec fn all_said(queue: Seq<Request>) -> bool {
    forall|i: int| 0 <= i < queue.len() ==> said(#[trigger] queue[i]) is Some
}

} // verus!
