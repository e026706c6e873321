//! The decisions of the daemon.

use crate::addr::{NodeAddr, RemoteSocketAddr};
use crate::chain::{BitcoinAddress, Chain, Coin, MoneroAddress, Network};
use crate::clock::Moment;
use crate::config::Config;
use crate::farcasterd::launch::{self, Daemon, Task};
use crate::farcasterd::state::{self, State};
use crate::farcasterd::stats::Stats;
use crate::farcasterd::sweep;
use crate::farcasterd::step::{
    AfterDescribe, AfterLaunch, AfterSend, AfterWatch, FundingWallet, Making, Report, Starting, Step,
    Watched,
};
use crate::ident::{OfferId, PublicKey, RequestId, SecretKey, SwapId};
use crate::offer::{self, PublicOffer, PublicTerms, TradeRole};
use crate::random;
use crate::rpc::{
    Error, FundingInfo, InitSwap, LaunchSwap, Msg, NodeInfo, Notice, Outcome, ProtoPublicOffer,
    PubOffer, Request, SwapStart, TakeCommit,
};
use crate::service::{get_swap_id, Envelope, ServiceBus, ServiceId};
use crate::table::{self, Roster, Table};
use vstd::prelude::*;

verus! {

/// The daemon.
pub struct Runtime {
    pub identity: ServiceId,
    pub listens: Table<OfferId, RemoteSocketAddr>,
    pub started: Moment,
    pub connections: Roster<NodeAddr>,
    pub running_swaps: Roster<SwapId>,
    pub spawning_services: Table<ServiceId, ServiceId>,
    pub making_swaps: Table<ServiceId, (InitSwap, Network)>,
    pub taking_swaps: Table<ServiceId, (InitSwap, Network)>,
    pub public_offers: Table<String, PublicOffer>,
    pub arb_addrs: Table<String, BitcoinAddress>,
    pub acc_addrs: Table<String, MoneroAddress>,
    pub consumed_offers: Table<OfferId, SwapId>,
    pub node_ids: Table<OfferId, PublicKey>,
    pub peerd_ids: Table<OfferId, ServiceId>,
    pub wallet_token: String,
    pub pending_requests: Table<RequestId, (Request, ServiceId)>,
    pub syncer_services: Table<Chain, ServiceId>,
    pub syncer_clients: Table<Chain, Roster<SwapId>>,
    pub progress: Table<ServiceId, Vec<Request>>,
    pub funding_btc: Table<SwapId, (BitcoinAddress, u64, bool)>,
    pub funding_xmr: Table<SwapId, (MoneroAddress, u64, bool)>,
    pub stats: Stats,
    pub config: Config,
}

/// The content of the swaps that are awaited.
pub open spec fn start_views(m: Map<ServiceId, (InitSwap, Network)>) -> Map<
    ServiceId,
    (SwapStart, Network),
> {
    m.map_values(|p: (InitSwap, Network)| (p.0@, p.1))
}

/// The clients of each syncer.
pub open spec fn client_views(m: Map<Chain, Roster<SwapId>>) -> Map<Chain, Set<SwapId>> {
    m.map_values(|r: Roster<SwapId>| r@)
}

/// The content of the public offers.
pub open spec fn public_views(m: Map<Seq<char>, PublicOffer>) -> Map<Seq<char>, PublicTerms> {
    m.map_values(|o: PublicOffer| o@)
}

/// What each service said.
pub open spec fn queue_views(m: Map<ServiceId, Vec<Request>>) -> Map<ServiceId, Seq<Request>> {
    m.map_values(|v: Vec<Request>| v@)
}

impl View for Runtime {
    type V = State;

    open spec fn view(&self) -> State {
        State {
            identity: self.identity,
            listens: self.listens@,
            started: self.started,
            connections: self.connections@,
            running_swaps: self.running_swaps@,
            spawning_services: self.spawning_services@,
            making_swaps: start_views(self.making_swaps@),
            taking_swaps: start_views(self.taking_swaps@),
            public_offers: public_views(self.public_offers@),
            arb_addrs: self.arb_addrs@,
            acc_addrs: self.acc_addrs@,
            consumed_offers: self.consumed_offers@,
            node_ids: self.node_ids@,
            peerd_ids: self.peerd_ids@,
            wallet_token: self.wallet_token,
            pending_requests: self.pending_requests@,
            syncer_services: self.syncer_services@,
            syncer_clients: client_views(self.syncer_clients@),
            progress: queue_views(self.progress@),
            funding_btc: self.funding_btc@,
            funding_xmr: self.funding_xmr@,
            stats: self.stats,
            config: self.config,
        }
    }
}

/// Starts the daemon: gives the task to launch the wallet's daemon, which comes first, and the
/// daemon as it is before any request.
pub fn run(config: Config, wallet_token: String, started: Moment) -> (r: (Task, Runtime))
    ensures
        r.0.is(Daemon::Walletd, launch::walletd_words(wallet_token@)),
        r.1@ == State::initial(config, wallet_token, started),
{
    let walletd = launch::walletd_task(wallet_token.as_str());
    let runtime = Runtime {
        identity: ServiceId::Farcasterd,
        listens: Table::new(),
        started,
        connections: Roster::new(),
        running_swaps: Roster::new(),
        spawning_services: Table::new(),
        making_swaps: Table::new(),
        taking_swaps: Table::new(),
        public_offers: Table::new(),
        arb_addrs: Table::new(),
        acc_addrs: Table::new(),
        consumed_offers: Table::new(),
        node_ids: Table::new(),
        peerd_ids: Table::new(),
        wallet_token,
        pending_requests: Table::new(),
        syncer_services: Table::new(),
        syncer_clients: Table::new(),
        progress: Table::new(),
        funding_btc: Table::new(),
        funding_xmr: Table::new(),
        stats: Stats::default(),
        config,
    };
    assert(runtime@ =~= State::initial(config, wallet_token, started));
    (walletd, runtime)
}

// Hello, and the start of a swap.
impl Runtime {
    /// Sends answers, one by one.
    fn respond(&self, reports: Vec<Report>) -> (step: Step)
        ensures
            state::reporting(self.identity, reports@, step),
    {
        if reports.len() == 0 {
            Step::Done
        } else {
            let mut rest = reports;
            let first = rest.remove(0);
            assert(rest@ =~= reports@.skip(1));
            Step::Send(
                Envelope {
                    bus: ServiceBus::Ctl,
                    source: self.identity,
                    dest: first.to,
                    request: first.request,
                },
                AfterSend::Reports(rest),
            )
        }
    }

    /// Registers a service that says hello.
    fn greet(&mut self, source: ServiceId)
        ensures
            final(self)@ == old(self)@.greeted(source),
    {
        match source {
            ServiceId::Peer(node) => {
                let _ = self.connections.insert(node);
            },
            ServiceId::Swap(swap) => {
                let _ = self.running_swaps.insert(swap);
            },
            ServiceId::Syncer(chain) => {
                if !self.syncer_services.contains_key(&chain)
                    && self.spawning_services.contains_key(&source) {
                    self.syncer_services.insert(chain, source);
                }
            },
            _ => {},
        }
    }

    /// A service says hello.
    pub fn hello(&mut self, source: ServiceId) -> (step: Step)
        ensures
            State::hello(old(self)@, source, final(self)@, step),
    {
        self.greet(source);
        let mut awaited: Option<(TradeRole, InitSwap, Network)> = None;
        match self.making_swaps.get(&source) {
            Some(p) => {
                awaited = Some((TradeRole::Maker, p.0.clone(), p.1));
            },
            None => {
                match self.taking_swaps.get(&source) {
                    Some(p) => {
                        awaited = Some((TradeRole::Taker, p.0.clone(), p.1));
                    },
                    None => {},
                }
            },
        }
        match awaited {
            Some((role, init, network)) => {
                match get_swap_id(&source) {
                    Ok(swap) => self.syncers_up(
                        Coin::Bitcoin,
                        Starting { role, source, swap, init, network },
                    ),
                    Err(e) => Step::Fail(e),
                }
            },
            None => {
                match self.spawning_services.remove(&source) {
                    Some(enquirer) => {
                        let mut reports: Vec<Report> = Vec::new();
                        reports.push(
                            Report {
                                to: enquirer,
                                request: Request::Success(Some(Notice::ConnectedTo(source))),
                            },
                        );
                        assert(reports@ =~= seq![
                            Report {
                                to: enquirer,
                                request: Request::Success(Some(Notice::ConnectedTo(source))),
                            },
                        ]);
                        self.respond(reports)
                    },
                    None => Step::Done,
                }
            },
        }
    }

    /// Brings up the syncer for a coin, and then what comes after it.
    fn syncers_up(&mut self, coin: Coin, start: Starting) -> (step: Step)
        ensures
            State::syncers_up(old(self)@, coin, start@, final(self)@, step),
        decreases (if coin == Coin::Bitcoin { 1int } else { 0int }),
    {
        let chain = Chain { coin, network: start.network };
        if !self.syncer_services.contains_key(&chain) && !self.spawning_services.contains_key(
            &ServiceId::Syncer(chain),
        ) {
            match launch::syncer_task(&self.config, chain) {
                Ok(task) => Step::Launch(task, AfterLaunch::Syncer { chain, start }),
                Err(e) => Step::Fail(e),
            }
        } else {
            self.join_syncer(chain, start.swap);
            match coin {
                Coin::Bitcoin => self.syncers_up(Coin::Monero, start),
                Coin::Monero => self.start_swap(start),
            }
        }
    }

    /// Makes a swap a client of a syncer, if the syncer has clients.
    fn join_syncer(&mut self, chain: Chain, swap: SwapId)
        ensures
            final(self)@ == old(self)@.syncer_joined(chain, swap),
    {
        match self.syncer_clients.remove(&chain) {
            Some(xs) => {
                let mut xs = xs;
                let _ = xs.insert(swap);
                self.syncer_clients.insert(chain, xs);
                assert(self@ =~= old(self)@.syncer_joined(chain, swap));
            },
            None => {
                assert(self@ =~= old(self)@.syncer_joined(chain, swap));
            },
        }
    }

    /// Tells a swap's daemon to make or to take the swap.
    fn start_swap(&self, start: Starting) -> (step: Step)
        ensures
            State::start_swap(self@, start@, self@, step),
    {
        let after = AfterSend::SwapStarted {
            role: start.role,
            source: start.source,
            swap: start.init.swap_id,
            report_to: start.init.report_to,
        };
        let dest = start.source;
        let request = match start.role {
            TradeRole::Maker => Request::MakeSwap(start.init),
            TradeRole::Taker => Request::TakeSwap(start.init),
        };
        Step::Send(
            Envelope { bus: ServiceBus::Ctl, source: self.identity, dest, request },
            after,
        )
    }
}

// The end of a swap.
impl Runtime {
    fn terminate(&self, dest: ServiceId, after: AfterSend) -> (step: Step)
        ensures
            state::terminating(self.identity, dest, step),
            step->Send_1 == after,
    {
        Step::Send(
            Envelope {
                bus: ServiceBus::Ctl,
                source: self.identity,
                dest,
                request: Request::Terminate,
            },
            after,
        )
    }

    /// A swap has ended.
    pub fn swap_outcome(&mut self, source: ServiceId, outcome: Outcome) -> (step: Step)
        requires
            old(self)@.admits(source, Request::SwapOutcome(outcome)),
        ensures
            State::swap_outcome(old(self)@, source, outcome, final(self)@, step),
    {
        match get_swap_id(&source) {
            Ok(swap) => self.clean_up_after_swap(swap, outcome),
            Err(e) => Step::Fail(e),
        }
    }

    /// Cleans up what was there for a swap alone, and then counts its outcome.
    fn clean_up_after_swap(&mut self, swap: SwapId, outcome: Outcome) -> (step: Step)
        requires
            old(self)@.stats.outcomes(outcome) < u64::MAX,
        ensures
            State::clean_up_after_swap(old(self)@, swap, outcome, final(self)@, step),
    {
        if self.running_swaps.remove(&swap) {
            self.terminate(ServiceId::Swap(swap), AfterSend::SwapStopped { swap, outcome })
        } else {
            assert(self@ =~= old(self)@);
            self.release_offer(swap, outcome)
        }
    }

    fn release_offer(&mut self, swap: SwapId, outcome: Outcome) -> (step: Step)
        requires
            old(self)@.stats.outcomes(outcome) < u64::MAX,
        ensures
            State::release_offer(old(self)@, swap, outcome, final(self)@, step),
    {
        let found = sweep::drop_swap(&mut self.consumed_offers, swap);
        assert(self@ =~= old(self)@.offers_released(swap));
        match found {
            Some(offer) => {
                let step = self.release_listener(offer, swap, outcome);
                assert(old(self)@.consumed_offers.contains_key(offer));
                step
            },
            None => self.release_syncers(swap, outcome),
        }
    }

    fn release_listener(&mut self, offer: OfferId, swap: SwapId, outcome: Outcome) -> (step: Step)
        requires
            old(self)@.stats.outcomes(outcome) < u64::MAX,
        ensures
            State::release_listener(old(self)@, offer, swap, outcome, final(self)@, step),
    {
        if self.listens.contains_key(&offer) && self.node_ids.contains_key(&offer) {
            let _ = self.peerd_ids.remove(&offer);
            let node_id = self.node_ids.remove(&offer);
            let remote_addr = self.listens.remove(&offer);
            match (node_id, remote_addr) {
                (Some(node_id), Some(remote_addr)) => {
                    let node = NodeAddr { node_id, remote_addr };
                    if sweep::listens_at(&self.listens, remote_addr).is_none() {
                        if self.connections.remove(&node) {
                            return self.terminate(
                                ServiceId::Peer(node),
                                AfterSend::PeerStopped { swap, outcome },
                            );
                        }
                        assert(self@ =~= old(self)@.listener_released(offer));
                    }
                },
                _ => {},
            }
        }
        self.release_syncers(swap, outcome)
    }

    fn release_syncers(&mut self, swap: SwapId, outcome: Outcome) -> (step: Step)
        requires
            old(self)@.stats.outcomes(outcome) < u64::MAX,
        ensures
            State::release_syncers(old(self)@, swap, outcome, final(self)@, step),
    {
        let idle = sweep::leave_syncers(&mut self.syncer_clients, swap);
        assert(self@ =~= old(self)@.syncers_left(swap));
        assert(table::lists(idle@, self@.idle_syncers()));
        self.stop_syncers(swap, idle, outcome)
    }

    fn stop_syncers(&mut self, swap: SwapId, idle: Vec<Chain>, outcome: Outcome) -> (step: Step)
        requires
            old(self)@.stats.outcomes(outcome) < u64::MAX,
        ensures
            State::stop_syncers(old(self)@, swap, idle@, outcome, final(self)@, step),
    {
        let mut rest = idle;
        match rest.pop() {
            Some(chain) => self.terminate(
                ServiceId::Syncer(chain),
                AfterSend::SyncerStopped { swap, chain, rest, outcome },
            ),
            None => {
                sweep::prune(&mut self.syncer_services, &self.syncer_clients);
                self.stats.incr_outcome(&outcome);
                assert(self@ =~= old(self)@.outcome_counted(outcome));
                Step::Done
            },
        }
    }
}

// The launch of a swap.
impl Runtime {
    /// Launches a swap for an offer that is registered.
    pub fn launch_swap(&mut self, req: LaunchSwap) -> (step: Step)
        requires
            old(self)@.admits(old(self)@.identity, Request::LaunchSwap(req)),
        ensures
            State::launch_swap(old(self)@, req, final(self)@, step),
    {
        let offer_id = req.public_offer.id();
        let node = match req.local_trade_role {
            TradeRole::Maker => match (self.listens.get(&offer_id), self.node_ids.get(&offer_id)) {
                (Some(listener), Some(node_id)) => NodeAddr {
                    node_id: *node_id,
                    remote_addr: *listener,
                },
                _ => {
                    return Step::Done;
                },
            },
            TradeRole::Taker => NodeAddr {
                node_id: req.public_offer.node_id(),
                remote_addr: RemoteSocketAddr::Ftcp(req.public_offer.peer_address()),
            },
        };
        match self.public_offers.remove(req.public_offer.text()) {
            Some(_) => {
                let peer = match self.peerd_ids.get(&offer_id) {
                    Some(peerd) => *peerd,
                    None => ServiceId::Peer(node),
                };
                self.consumed_offers.insert(offer_id, req.swap_id);
                self.stats.incr_initiated();
                assert(self@ =~= old(self)@.offer_consumed(req.public_offer@, req.swap_id));
                self.launch_swapd(peer, req)
            },
            None => {
                assert(self@ =~= old(self)@);
                Step::Fail(Error::UnknownOffer)
            },
        }
    }

    /// Launches the daemon of a swap.
    fn launch_swapd(&self, peerd: ServiceId, req: LaunchSwap) -> (step: Step)
        ensures
            step matches Step::Launch(task, AfterLaunch::Swapd { role, init, network })
                && task.is(
                    Daemon::Swapd,
                    launch::swapd_words(
                        req.swap_id,
                        req.public_offer@.text@,
                        req.local_trade_role,
                    ),
                ) && role == req.local_trade_role && network == req.public_offer@.offer.network && init@
                == (SwapStart {
                peerd,
                report_to: Some(self.identity),
                local_params: req.local_params@,
                swap_id: req.swap_id,
                remote_commit: crate::rpc::parcel_of(req.remote_commit),
                funding_address: req.funding_address,
            }),
    {
        let task = launch::swapd_task(
            req.swap_id,
            req.public_offer.text().as_str(),
            req.local_trade_role,
        );
        let init = InitSwap {
            peerd,
            report_to: Some(self.identity),
            local_params: req.local_params,
            swap_id: req.swap_id,
            remote_commit: req.remote_commit,
            funding_address: req.funding_address,
        };
        Step::Launch(
            task,
            AfterLaunch::Swapd {
                role: req.local_trade_role,
                init,
                network: req.public_offer.network(),
            },
        )
    }

    fn await_swap(&mut self, role: TradeRole, init: InitSwap, network: Network)
        ensures
            final(self)@ == old(self)@.swap_awaited(role, init@, network),
    {
        let k = ServiceId::Swap(init.swap_id);
        match role {
            TradeRole::Maker => {
                self.making_swaps.insert(k, (init, network));
            },
            TradeRole::Taker => {
                self.taking_swaps.insert(k, (init, network));
            },
        }
        assert(self@ =~= old(self)@.swap_awaited(role, init@, network));
    }

    /// The daemon of a swap was launched, and its hello is awaited: gives the text that says so. Or
    /// it could not be launched.
    pub fn swapd_launched(
        &mut self,
        role: TradeRole,
        init: InitSwap,
        network: Network,
        pid: Result<u32, String>,
    ) -> (r: Result<String, Error>)
        ensures
            match pid {
                Ok(pid) => {
                    &&& r matches Ok(text)
                    &&& text@ == launch::launched_words(Daemon::Swapd, pid)
                    &&& final(self)@ == old(self)@.swap_awaited(role, init@, network)
                },
                Err(words) => r == Err::<String, Error>(Error::Launch(words)) && final(self)@
                    == old(self)@,
            },
    {
        match pid {
            Ok(pid) => {
                self.await_swap(role, init, network);
                Ok(launch::launched_text(Daemon::Swapd, pid))
            },
            Err(words) => Err(Error::Launch(words)),
        }
    }
}

// Keys.
impl Runtime {
    /// Asks the wallet for keys under an identifier, and lets a request wait for them.
    pub fn await_keys(&mut self, id: RequestId, source: ServiceId, request: Request) -> (step: Step)
        ensures
            State::await_keys(old(self)@, id, source, request, final(self)@, step),
    {
        self.pending_requests.insert(id, (request, source));
        Step::Send(
            Envelope {
                bus: ServiceBus::Ctl,
                source: ServiceId::Farcasterd,
                dest: ServiceId::Wallet,
                request: Request::GetKeys { token: self.wallet_token.clone(), id },
            },
            AfterSend::Finish,
        )
    }

    /// Asks the wallet for keys under a random identifier, and lets a request wait for them.
    fn get_secret(&mut self, source: ServiceId, request: Request) -> (step: Step)
        ensures
            State::get_secret(old(self)@, source, request, final(self)@, step),
    {
        let id = RequestId { number: random::random_number() };
        self.await_keys(id, source, request)
    }

    /// The wallet gives keys.
    pub fn keys(&mut self, secret_key: SecretKey, public_key: PublicKey, id: RequestId) -> (step:
        Step)
        ensures
            State::keys(old(self)@, secret_key, public_key, id, final(self)@, step),
    {
        match self.pending_requests.remove(&id) {
            Some((request, source)) => {
                match request {
                    Request::MakeOffer(req) => {
                        let mut req = req;
                        req.peer_secret_key = Some(secret_key);
                        req.peer_public_key = Some(public_key);
                        self.make_offer(source, req)
                    },
                    Request::TakeOffer(req) => {
                        let mut req = req;
                        req.peer_secret_key = Some(secret_key);
                        self.take_offer(source, req)
                    },
                    _ => Step::Fail(Error::UnexpectedPending),
                }
            },
            None => {
                assert(self@ =~= old(self)@);
                Step::Done
            },
        }
    }
}

// Offers that are made here.
impl Runtime {
    /// The node key that an address is listened at for, if it is.
    fn bound_key(&self, addr: RemoteSocketAddr) -> (key: Option<PublicKey>)
        ensures
            self@.bound(addr, key),
    {
        match sweep::listens_at(&self.listens, addr) {
            Some(offer) => {
                assert(self@.listens.contains_key(offer));
                match self.node_ids.get(&offer) {
                    Some(key) => Some(*key),
                    None => None,
                }
            },
            None => None,
        }
    }

    /// Makes an offer.
    pub fn make_offer(&mut self, source: ServiceId, req: ProtoPublicOffer) -> (step: Step)
        requires
            old(self)@.admits(source, Request::MakeOffer(req)),
        ensures
            State::make_offer(old(self)@, source, req, final(self)@, step),
    {
        let bound = self.bound_key(req.bind_addr);
        assert(self@.bound(req.bind_addr, bound));
        match bound {
            Some(key) => {
                let addr = req.bind_addr;
                self.listens.insert(req.offer.id(), addr);
                self.node_ids.insert(req.offer.id(), key);
                let ghost m = state::making(source, req, key);
                let making = Making {
                    source,
                    offer: req.offer,
                    node_id: key,
                    public_addr: req.public_addr,
                    arbitrating_addr: req.arbitrating_addr,
                    accordant_addr: req.accordant_addr,
                };
                assert(making == m);
                self.register_offer(making, Notice::AlreadyListening(addr))
            },
            None => {
                match (req.peer_secret_key, req.peer_public_key) {
                    (Some(sk), Some(pk)) => {
                        let addr = req.bind_addr;
                        self.listens.insert(req.offer.id(), addr);
                        self.node_ids.insert(req.offer.id(), pk);
                        let making = Making {
                            source,
                            offer: req.offer,
                            node_id: pk,
                            public_addr: req.public_addr,
                            arbitrating_addr: req.arbitrating_addr,
                            accordant_addr: req.accordant_addr,
                        };
                        self.listen(addr, sk, making)
                    },
                    _ => self.get_secret(source, Request::MakeOffer(req)),
                }
            },
        }
    }

    /// Launches a peer daemon that listens.
    fn listen(&self, addr: RemoteSocketAddr, key: SecretKey, making: Making) -> (step: Step)
        ensures
            State::listen(self@, addr, key, making, step),
    {
        match addr {
            RemoteSocketAddr::Ftcp(inet) => match inet.ip_and_port() {
                Some((ip, port)) => Step::Launch(
                    launch::listen_task(ip, port, key, self.wallet_token.as_str()),
                    AfterLaunch::Listener(making),
                ),
                None => Step::Fail(Error::NoSocketAddr),
            },
            _ => Step::Fail(Error::OnlyTcp),
        }
    }

    /// Makes an offer public that is listened for, and registers it.
    fn register_offer(&mut self, m: Making, listening: Notice) -> (step: Step)
        ensures
            State::register_offer(old(self)@, m, listening, final(self)@, step),
    {
        let mut reports: Vec<Report> = Vec::new();
        reports.push(Report { to: m.source, request: Request::Progress(listening) });
        match m.offer.to_public_v1(m.node_id, m.public_addr.inet()) {
            Some(public) => {
                let ghost text = public@.text@;
                if self.public_offers.contains_key(public.text()) {
                    reports.push(
                        Report {
                            to: m.source,
                            request: Request::Failure { code: 1, info: Notice::OfferKnown },
                        },
                    );
                    assert(reports@ =~= seq![
                        Report { to: m.source, request: Request::Progress(listening) },
                        Report {
                            to: m.source,
                            request: Request::Failure { code: 1, info: Notice::OfferKnown },
                        },
                    ]);
                    self.respond(reports)
                } else {
                    let shared = public.text().clone();
                    let ghost made = public@;
                    assert(state::is_public(made, m, text));
                    self.public_offers.insert(public.text().clone(), public);
                    assert(self@.public_offers =~= old(self)@.public_offers.insert(text, made));
                    self.arb_addrs.insert(shared.clone(), m.arbitrating_addr);
                    match MoneroAddress::from_text(m.accordant_addr) {
                        Ok(address) => {
                            self.acc_addrs.insert(shared.clone(), address);
                            reports.push(
                                Report {
                                    to: m.source,
                                    request: Request::Success(Some(Notice::ShareOffer(shared))),
                                },
                            );
                            assert(reports@ =~= seq![
                                Report { to: m.source, request: Request::Progress(listening) },
                                Report {
                                    to: m.source,
                                    request: Request::Success(Some(Notice::ShareOffer(made.text))),
                                },
                            ]);
                            self.respond(reports)
                        },
                        Err(words) => Step::Fail(Error::AddressFormat(words)),
                    }
                }
            },
            None => Step::Fail(Error::InvalidKey),
        }
    }
}

// Offers that are taken here.
impl Runtime {
    /// Takes a public offer.
    pub fn take_offer(&mut self, source: ServiceId, req: PubOffer) -> (step: Step)
        ensures
            State::take_offer(old(self)@, source, req, final(self)@, step),
    {
        if self.public_offers.contains_key(req.public_offer.text())
            || self.consumed_offers_contains(&req.public_offer.id()) {
            let mut reports: Vec<Report> = Vec::new();
            reports.push(
                Report {
                    to: source,
                    request: Request::Failure {
                        code: 1,
                        info: Notice::OfferTaken(req.public_offer.text().clone()),
                    },
                },
            );
            assert(reports@ =~= seq![
                Report {
                    to: source,
                    request: Request::Failure {
                        code: 1,
                        info: Notice::OfferTaken(req.public_offer@.text),
                    },
                },
            ]);
            return self.respond(reports);
        }
        let peer = NodeAddr {
            node_id: req.public_offer.node_id(),
            remote_addr: RemoteSocketAddr::Ftcp(req.public_offer.peer_address()),
        };
        if self.connections.contains(&peer) {
            self.forward_take(source, req, Notice::AlreadyConnected(peer))
        } else {
            match req.peer_secret_key {
                Some(sk) => self.connect_peer(source, peer, sk, req),
                None => self.get_secret(source, Request::TakeOffer(req)),
            }
        }
    }

    /// Tells whether a swap has consumed an offer.
    fn consumed_offers_contains(&self, offer: &OfferId) -> (r: bool)
        ensures
            r == self@.consumed_offers.contains_key(*offer),
    {
        self.consumed_offers.contains_key(offer)
    }

    /// Launches a peer daemon that connects to the maker of an offer. A peer that is connected
    /// already is not connected to again, and whoever asked is told.
    fn connect_peer(&self, source: ServiceId, peer: NodeAddr, key: SecretKey, take: PubOffer) -> (
        step: Step)
        ensures
            if self@.connections.contains(peer) {
                state::reporting(
                    self.identity,
                    seq![
                        Report {
                            to: source,
                            request: Request::Failure {
                                code: 1,
                                info: Notice::Trouble(Error::AlreadyConnected(peer)),
                            },
                        },
                    ],
                    step,
                )
            } else {
                step matches Step::Watch(task, after) && task.is(
                    Daemon::Peerd,
                    launch::connect_words(peer, key, self.wallet_token@),
                ) && after == (AfterWatch { source, peer, take })
            },
    {
        if self.connections.contains(&peer) {
            let mut reports: Vec<Report> = Vec::new();
            reports.push(
                Report {
                    to: source,
                    request: Request::Failure {
                        code: 1,
                        info: Notice::Trouble(Error::AlreadyConnected(peer)),
                    },
                },
            );
            assert(reports@ =~= seq![
                Report {
                    to: source,
                    request: Request::Failure {
                        code: 1,
                        info: Notice::Trouble(Error::AlreadyConnected(peer)),
                    },
                },
            ]);
            return self.respond(reports);
        }
        Step::Watch(
            launch::connect_task(peer, key, self.wallet_token.as_str()),
            AfterWatch { source, peer, take },
        )
    }

    /// Registers an offer whose maker is connected to, and hands it to the wallet.
    fn forward_take(&mut self, source: ServiceId, req: PubOffer, connected: Notice) -> (step: Step)
        ensures
            State::forward_take(old(self)@, source, req, connected, final(self)@, step),
    {
        let uuid = req.public_offer.id();
        self.public_offers.insert(req.public_offer.text().clone(), req.public_offer.clone());
        assert(self@.public_offers =~= old(self)@.public_offers.insert(
            req.public_offer@.text@,
            req.public_offer@,
        ));
        let mut reports: Vec<Report> = Vec::new();
        reports.push(Report { to: source, request: Request::Progress(connected) });
        reports.push(
            Report { to: source, request: Request::Success(Some(Notice::OfferRegistered(uuid))) },
        );
        assert(reports@ =~= seq![
            Report { to: source, request: Request::Progress(connected) },
            Report { to: source, request: Request::Success(Some(Notice::OfferRegistered(uuid))) },
        ]);
        let mut take = req;
        take.peer_secret_key = None;
        Step::Send(
            Envelope {
                bus: ServiceBus::Ctl,
                source: self.identity,
                dest: ServiceId::Wallet,
                request: Request::TakeOffer(take),
            },
            AfterSend::Reports(reports),
        )
    }

    /// A peer daemon was launched to connect to the maker of an offer.
    pub fn watched(&mut self, after: AfterWatch, result: Watched) -> (step: Step)
        ensures
            State::watched(old(self)@, after, result, final(self)@, step),
    {
        let trouble = match result {
            Watched::Running(pid) => {
                self.spawning_services.insert(ServiceId::Peer(after.peer), after.source);
                return self.forward_take(after.source, after.take, Notice::PeerdLaunched(pid));
            },
            Watched::Lost(words) => Error::Launch(words),
            Watched::Exited => Error::InvalidEndpoint,
        };
        let ghost told = trouble;
        let mut reports: Vec<Report> = Vec::new();
        reports.push(
            Report {
                to: after.source,
                request: Request::Failure { code: 1, info: Notice::Trouble(trouble) },
            },
        );
        assert(reports@ =~= seq![
            Report {
                to: after.source,
                request: Request::Failure { code: 1, info: Notice::Trouble(told) },
            },
        ]);
        self.respond(reports)
    }
}

// Lists for clients.
impl Runtime {
    fn reply(&self, source: ServiceId, dest: ServiceId, request: Request) -> (step: Step)
        ensures
            state::replying(source, dest, step),
            state::sent_request(step) == request,
    {
        Step::Send(Envelope { bus: ServiceBus::Ctl, source, dest, request }, AfterSend::Finish)
    }

    /// The node keys, each once.
    fn node_ids(&self) -> (v: Vec<PublicKey>)
        ensures
            table::lists(v@, self@.node_ids.values()),
    {
        sweep::node_keys(&self.node_ids)
    }

    /// Tells a client what there is to know of the node.
    pub fn get_info(&self, source: ServiceId, now: Moment) -> (step: Step)
        ensures
            State::get_info(self@, source, now, self@, step),
    {
        let info = NodeInfo {
            node_ids: self.node_ids(),
            listens: sweep::addresses(&self.listens),
            uptime: now.since(self.started),
            since: self.started.since_epoch(),
            peers: self.connections.to_vec(),
            swaps: self.running_swaps.to_vec(),
            offers: sweep::all_offers(&self.public_offers),
        };
        self.reply(ServiceId::Farcasterd, source, Request::NodeInfo(info))
    }

    /// Tells a client the peers that are connected.
    pub fn list_peers(&self, source: ServiceId) -> (step: Step)
        ensures
            State::list_peers(self@, source, self@, step),
    {
        self.reply(ServiceId::Farcasterd, source, Request::PeerList(self.connections.to_vec()))
    }

    /// Tells a client the swaps that run.
    pub fn list_swaps(&self, source: ServiceId) -> (step: Step)
        ensures
            State::list_swaps(self@, source, self@, step),
    {
        self.reply(ServiceId::Farcasterd, source, Request::SwapList(self.running_swaps.to_vec()))
    }

    /// Tells a client the public offers that no swap has consumed.
    pub fn list_offers(&self, source: ServiceId) -> (step: Step)
        ensures
            State::list_offers(self@, source, self@, step),
    {
        let offers = sweep::open_offers(&self.public_offers, &self.consumed_offers);
        assert(table::lists_values(offer::offer_views(offers@), self@.open_offers()));
        self.reply(ServiceId::Farcasterd, source, Request::OfferList(offers))
    }

    /// Tells a client the addresses that are listened at.
    pub fn list_listens(&self, source: ServiceId) -> (step: Step)
        ensures
            State::list_listens(self@, source, self@, step),
    {
        let urls = sweep::urls(&self.listens);
        self.reply(ServiceId::Farcasterd, source, Request::ListenList(urls))
    }
}

// Progress of swaps.
impl Runtime {
    /// Keeps what a service says of its progress.
    pub fn note_progress(&mut self, source: ServiceId, request: Request)
        ensures
            final(self)@ == old(self)@.progressed(source, request),
    {
        let mut queue: Vec<Request> = match self.progress.remove(&source) {
            Some(queue) => queue,
            None => Vec::new(),
        };
        queue.push(request);
        self.progress.insert(source, queue);
        assert(self@ =~= old(self)@.progressed(source, request));
    }

    /// Tells over what a swap said of its progress.
    pub fn read_progress(&self, source: ServiceId, swap: SwapId) -> (step: Step)
        requires
            self@.admits(source, Request::ReadProgress(swap)),
        ensures
            State::read_progress(self@, source, swap, self@, step),
    {
        let k = ServiceId::Swap(swap);
        match self.progress.get(&k) {
            Some(queue) => {
                let n: usize = queue.len();
                let mut reports: Vec<Report> = Vec::new();
                let mut i: usize = 0;
                while i < n
                    invariant
                        n == queue@.len(),
                        i <= n,
                        state::all_said(queue@),
                        reports@.len() == i,
                        forall|j: int|
                            0 <= j < i ==> #[trigger] reports@[j] == state::retold(
                                source,
                                queue@,
                            )[j],
                    decreases n - i,
                {
                    assert(state::said(queue@[i as int]) is Some);
                    let x = match &queue[i] {
                        Request::Progress(x) => x.clone(),
                        Request::Success(Some(x)) => x.clone(),
                        Request::Failure { code: _, info } => info.clone(),
                        _ => {
                            return Step::Done;
                        },
                    };
                    let request = if i < n - 1 {
                        Request::Progress(x)
                    } else {
                        Request::Success(Some(x))
                    };
                    reports.push(Report { to: source, request });
                    i += 1;
                }
                assert(reports@ =~= state::retold(source, queue@));
                self.respond(reports)
            },
            None => {
                let info = if self.making_swaps.contains_key(&k) || self.taking_swaps.contains_key(
                    &k,
                ) {
                    Notice::NoProgressYet
                } else {
                    Notice::UnknownSwapd
                };
                self.reply(self.identity, source, Request::Failure { code: 1, info })
            },
        }
    }
}

// Funding of swaps.
impl Runtime {
    fn note_funding(&mut self, info: FundingInfo, auto: bool)
        ensures
            final(self)@ == old(self)@.funding_noted(info, auto),
    {
        match info {
            FundingInfo::Bitcoin { swap_id, address, amount } => {
                self.funding_btc.insert(swap_id, (address, amount, auto));
            },
            FundingInfo::Monero { swap_id, address, amount } => {
                self.funding_xmr.insert(swap_id, (address, amount, auto));
            },
        }
    }

    /// The wallet that coins are sent from without asking.
    fn funding_wallet(&self, info: &FundingInfo) -> (w: Option<FundingWallet>)
        ensures
            w == self@.funding_wallet(*info),
    {
        match info {
            FundingInfo::Bitcoin { swap_id: _, address, amount: _ } => {
                match self.config.get_auto_funding_config(address.network.network()) {
                    Some(servers) => Some(
                        FundingWallet::Bitcoin {
                            rpc: servers.bitcoin_rpc.clone(),
                            cookie_path: servers.bitcoin_cookie_path.clone(),
                        },
                    ),
                    None => None,
                }
            },
            FundingInfo::Monero { swap_id: _, address, amount: _ } => {
                match self.config.get_auto_funding_config(address.network.network()) {
                    Some(servers) => Some(
                        FundingWallet::Monero { rpc: servers.monero_rpc_wallet.clone() },
                    ),
                    None => None,
                }
            },
        }
    }

    /// A swap waits for coins.
    pub fn funding_info(&mut self, info: FundingInfo) -> (step: Step)
        requires
            old(self)@.admits(old(self)@.identity, Request::FundingInfo(info)),
        ensures
            State::funding_info(old(self)@, info, final(self)@, step),
    {
        let coin = match &info {
            FundingInfo::Bitcoin { .. } => Coin::Bitcoin,
            FundingInfo::Monero { .. } => Coin::Monero,
        };
        self.stats.incr_awaiting_funding(&coin);
        match self.funding_wallet(&info) {
            Some(wallet) => Step::Fund(info, wallet),
            None => {
                self.note_funding(info, false);
                Step::Done
            },
        }
    }

    /// Coins for a swap were sent from a wallet, or could not be sent.
    pub fn funded(&mut self, info: FundingInfo, ok: bool)
        ensures
            final(self)@ == old(self)@.funding_noted(info, ok),
    {
        self.note_funding(info, ok);
    }

    fn settle_funding(&mut self, swap: SwapId, coin: Coin) -> (r: bool)
        ensures
            r == old(self)@.awaits_funding(swap, coin),
            final(self)@ == old(self)@.funding_settled(swap, coin),
            !r ==> final(self)@ == old(self)@,
    {
        match coin {
            Coin::Bitcoin => self.funding_btc.remove(&swap).is_some(),
            Coin::Monero => self.funding_xmr.remove(&swap).is_some(),
        }
    }

    /// A swap that waited for a coin got it.
    pub fn funding_completed(&mut self, source: ServiceId, coin: Coin) -> (step: Step)
        requires
            old(self)@.admits(source, Request::FundingCompleted(coin)),
        ensures
            State::funding_completed(old(self)@, source, coin, final(self)@, step),
    {
        match get_swap_id(&source) {
            Ok(swap) => {
                if self.settle_funding(swap, coin) {
                    self.stats.incr_funded(&coin);
                }
                Step::Done
            },
            Err(e) => Step::Fail(e),
        }
    }

    /// A swap that waited for a coin was called off.
    pub fn funding_canceled(&mut self, source: ServiceId, coin: Coin) -> (step: Step)
        requires
            old(self)@.admits(source, Request::FundingCanceled(coin)),
        ensures
            State::funding_canceled(old(self)@, source, coin, final(self)@, step),
    {
        match get_swap_id(&source) {
            Ok(swap) => {
                if self.settle_funding(swap, coin) {
                    self.stats.incr_funding_monero_canceled();
                }
                Step::Done
            },
            Err(e) => Step::Fail(e),
        }
    }

    /// A client asks which swaps wait for a coin that was not sent.
    pub fn needs_funding(&self, source: ServiceId, coin: Coin) -> (step: Step)
        ensures
            State::needs_funding(self@, source, coin, self@, step),
    {
        let (infos, total) = match coin {
            Coin::Bitcoin => (sweep::bitcoin_infos(&self.funding_btc), self.funding_btc.len()),
            Coin::Monero => (sweep::monero_infos(&self.funding_xmr), self.funding_xmr.len()),
        };
        assert(self@.fundings(Coin::Bitcoin).dom() =~= self.funding_btc@.dom());
        assert(self@.fundings(Coin::Monero).dom() =~= self.funding_xmr@.dom());
        Step::Describe(infos, AfterDescribe { dest: source, total })
    }

    /// What swaps wait for was put into words: the client that asked is told.
    pub fn described(&self, after: AfterDescribe, lines: Vec<String>) -> (step: Step)
        ensures
            State::described(self@, after, launch::words(lines@), self@, step),
    {
        let text = sweep::joined(&lines, after.total);
        self.reply(self.identity, after.dest, Request::String(text))
    }
}

// The peer protocol.
impl Runtime {
    /// A taker commits to a swap.
    pub fn taker_commit(&mut self, source: ServiceId, commit: TakeCommit) -> (step: Step)
        ensures
            State::taker_commit(old(self)@, source, commit, final(self)@, step),
    {
        match offer::offer_text(commit.public_offer.as_str()) {
            Ok(text) => {
                match self.public_offers.get(&text) {
                    Some(public_offer) => {
                        let offer = public_offer.id();
                        self.pay_arbitrating(source, offer, text, commit)
                    },
                    None => Step::Done,
                }
            },
            Err(words) => Step::Fail(Error::OfferFormat(words)),
        }
    }

    fn pay_arbitrating(
        &mut self,
        source: ServiceId,
        offer: OfferId,
        text: String,
        commit: TakeCommit,
    ) -> (step: Step)
        ensures
            State::pay_arbitrating(old(self)@, source, offer, text@, commit, final(self)@, step),
    {
        match self.arb_addrs.remove(&text) {
            Some(address) => {
                let swap = commit.swap_id;
                Step::Send(
                    Envelope {
                        bus: ServiceBus::Msg,
                        source: self.identity,
                        dest: ServiceId::Wallet,
                        request: Request::BitcoinAddress(swap, address),
                    },
                    AfterSend::CommitAccordant { source, offer, text, commit },
                )
            },
            None => {
                assert(self@ =~= old(self)@);
                self.pay_accordant(source, offer, text, commit)
            },
        }
    }

    fn pay_accordant(
        &mut self,
        source: ServiceId,
        offer: OfferId,
        text: String,
        commit: TakeCommit,
    ) -> (step: Step)
        ensures
            State::pay_accordant(old(self)@, source, offer, text@, commit, final(self)@, step),
    {
        match self.acc_addrs.remove(&text) {
            Some(address) => {
                let swap = commit.swap_id;
                Step::Send(
                    Envelope {
                        bus: ServiceBus::Msg,
                        source: self.identity,
                        dest: ServiceId::Wallet,
                        request: Request::MoneroAddress(swap, address),
                    },
                    AfterSend::CommitForward { source, offer, commit },
                )
            },
            None => {
                assert(self@ =~= old(self)@);
                self.forward_commit(source, offer, commit)
            },
        }
    }

    fn forward_commit(&mut self, source: ServiceId, offer: OfferId, commit: TakeCommit) -> (step:
        Step)
        ensures
            State::forward_commit(old(self)@, source, offer, commit, final(self)@, step),
    {
        self.peerd_ids.insert(offer, source);
        Step::Send(
            Envelope {
                bus: ServiceBus::Msg,
                source,
                dest: ServiceId::Wallet,
                request: Request::Protocol(Msg::TakerCommit(commit)),
            },
            AfterSend::Finish,
        )
    }

    /// Handles a request over the bus of the peer protocol.
    pub fn handle_rpc_msg(&mut self, source: ServiceId, request: Request) -> (step: Step)
        ensures
            State::handle_rpc_msg(old(self)@, source, request, final(self)@, step),
    {
        match request {
            Request::Hello => Step::Done,
            Request::Protocol(Msg::TakerCommit(commit)) => self.taker_commit(source, commit),
            other => Step::Fail(Error::NotSupported(ServiceBus::Msg, other.get_type())),
        }
    }
}

fn all_said(queue: &Vec<Request>) -> (r: bool)
    ensures
        r == state::all_said(queue@),
{
    let mut i: usize = 0;
    while i < queue.len()
        invariant
            i <= queue@.len(),
            forall|j: int| 0 <= j < i ==> state::said(#[trigger] queue@[j]) is Some,
        decreases queue@.len() - i,
    {
        match &queue[i] {
            Request::Progress(_) => {},
            Request::Success(Some(_)) => {},
            Request::Failure { .. } => {},
            _ => {
                assert(state::said(queue@[i as int]) is None);
                return false;
            },
        }
        i += 1;
    }
    true
}

// All requests.
impl Runtime {
    /// Who the daemon is.
    pub fn identity(&self) -> (id: ServiceId)
        ensures
            id == self@.identity,
    {
        self.identity
    }

    /// Hands a request to the wallet, and that ends what was going on.
    pub fn send_walletd(&self, message: Request) -> (step: Step)
        ensures
            state::replying(self@.identity, ServiceId::Wallet, step),
            state::sent_request(step) == message,
    {
        self.reply(self.identity, ServiceId::Wallet, message)
    }

    /// The swap that a daemon runs, if the swap is known to run.
    pub fn known_swap_id(&self, source: ServiceId) -> (r: Result<SwapId, Error>)
        ensures
            r == match crate::service::swap_of(source) {
                Some(swap) => if self@.running_swaps.contains(swap) {
                    Ok(swap)
                } else {
                    Err(Error::UnknownSwapd)
                },
                None => Err::<SwapId, Error>(Error::NotSwapd),
            },
    {
        match get_swap_id(&source) {
            Ok(swap) => {
                if self.running_swaps.contains(&swap) {
                    Ok(swap)
                } else {
                    Err(Error::UnknownSwapd)
                }
            },
            Err(e) => Err(e),
        }
    }

    /// Tells whether a request can be carried out.
    pub fn admits(&self, source: ServiceId, request: &Request) -> (r: bool)
        ensures
            r == self@.admits(source, *request),
    {
        match request {
            Request::SwapOutcome(outcome) => get_swap_id(&source).is_err() || self.has_room(
                *outcome,
            ),
            Request::LaunchSwap(req) => {
                let offer = req.public_offer.id();
                let known = match req.local_trade_role {
                    TradeRole::Maker => self.listens.contains_key(&offer)
                        && self.node_ids.contains_key(&offer),
                    TradeRole::Taker => true,
                };
                !(known && self.public_offers.contains_key(req.public_offer.text()))
                    || self.stats.initialized < u64::MAX
            },
            Request::MakeOffer(req) => {
                req.peer_secret_key.is_some() == req.peer_public_key.is_some()
                    || sweep::surely_bound(&self.listens, &self.node_ids, req.bind_addr)
            },
            Request::FundingInfo(info) => match info {
                FundingInfo::Bitcoin { .. } => self.stats.awaiting_funding_btc < u64::MAX,
                FundingInfo::Monero { .. } => self.stats.awaiting_funding_xmr < u64::MAX,
            },
            Request::FundingCompleted(coin) => match get_swap_id(&source) {
                Ok(swap) => match coin {
                    Coin::Bitcoin => !self.funding_btc.contains_key(&swap) || (
                    self.stats.funded_btc < u64::MAX && self.stats.awaiting_funding_btc > 0),
                    Coin::Monero => !self.funding_xmr.contains_key(&swap) || (self.stats.funded_xmr
                        < u64::MAX && self.stats.awaiting_funding_xmr > 0),
                },
                Err(_) => true,
            },
            Request::FundingCanceled(coin) => match get_swap_id(&source) {
                Ok(swap) => {
                    let awaits = match coin {
                        Coin::Bitcoin => self.funding_btc.contains_key(&swap),
                        Coin::Monero => self.funding_xmr.contains_key(&swap),
                    };
                    !awaits || (self.stats.awaiting_funding_xmr > 0
                        && self.stats.funding_canceled_xmr < u64::MAX)
                },
                Err(_) => true,
            },
            Request::ReadProgress(swap) => match self.progress.get(&ServiceId::Swap(*swap)) {
                Some(queue) => all_said(queue),
                None => true,
            },
            _ => true,
        }
    }

    fn has_room(&self, outcome: Outcome) -> (r: bool)
        ensures
            r == (self@.stats.outcomes(outcome) < u64::MAX),
    {
        match outcome {
            Outcome::Buy => self.stats.success < u64::MAX,
            Outcome::Refund => self.stats.refund < u64::MAX,
            Outcome::Punish => self.stats.punish < u64::MAX,
        }
    }

    /// Tells whether what comes after a request was sent can be carried out.
    pub fn admits_after(&self, after: &AfterSend) -> (r: bool)
        ensures
            r == self@.admits_after(*after),
    {
        match after {
            AfterSend::SwapStopped { swap: _, outcome } => self.has_room(*outcome),
            AfterSend::PeerStopped { swap: _, outcome } => self.has_room(*outcome),
            AfterSend::SyncerStopped { swap: _, chain: _, rest: _, outcome } => self.has_room(*outcome),
            _ => true,
        }
    }

    /// Handles a request over the control bus.
    pub fn handle_rpc_ctl(&mut self, source: ServiceId, request: Request, now: Moment) -> (step:
        Step)
        requires
            old(self)@.admits(source, request),
        ensures
            State::handle_rpc_ctl(old(self)@, source, request, now, final(self)@, step),
    {
        match request {
            Request::Hello => self.hello(source),
            Request::SwapOutcome(outcome) => self.swap_outcome(source, outcome),
            Request::LaunchSwap(req) => self.launch_swap(req),
            Request::Keys { secret_key, public_key, id } => self.keys(secret_key, public_key, id),
            Request::GetInfo => self.get_info(source, now),
            Request::ListPeers => self.list_peers(source),
            Request::ListSwaps => self.list_swaps(source),
            Request::ListOffers => self.list_offers(source),
            Request::ListListens => self.list_listens(source),
            Request::MakeOffer(req) => self.make_offer(source, req),
            Request::TakeOffer(req) => self.take_offer(source, req),
            Request::Progress(x) => {
                self.note_progress(source, Request::Progress(x));
                Step::Done
            },
            Request::Success(x) => {
                self.note_progress(source, Request::Success(x));
                Step::Done
            },
            Request::Failure { code, info } => {
                self.note_progress(source, Request::Failure { code, info });
                Step::Done
            },
            Request::ReadProgress(swap) => self.read_progress(source, swap),
            Request::FundingInfo(info) => self.funding_info(info),
            Request::FundingCompleted(coin) => self.funding_completed(source, coin),
            Request::FundingCanceled(coin) => self.funding_canceled(source, coin),
            Request::NeedsFunding(coin) => self.needs_funding(source, coin),
            _ => Step::Done,
        }
    }

    /// Handles a request over any bus.
    pub fn handle(
        &mut self,
        bus: ServiceBus,
        source: ServiceId,
        request: Request,
        now: Moment,
    ) -> (step: Step)
        requires
            bus == ServiceBus::Ctl ==> old(self)@.admits(source, request),
        ensures
            State::handle(old(self)@, bus, source, request, now, final(self)@, step),
    {
        match bus {
            ServiceBus::Msg => self.handle_rpc_msg(source, request),
            ServiceBus::Ctl => self.handle_rpc_ctl(source, request, now),
            ServiceBus::Bridge => Step::Fail(
                Error::NotSupported(ServiceBus::Bridge, request.get_type()),
            ),
        }
    }

    /// An error of the bus is not passed on, since that would end the daemon; it has been
    /// reported where it came up.
    pub fn handle_err(&mut self, err: Error) -> (r: Result<(), Error>)
        ensures
            r == Ok::<(), Error>(()),
            *final(self) == *old(self),
    {
        Ok(())
    }
}

// What comes after a step was carried out.
impl Runtime {
    /// A request was sent, or could not be sent.
    pub fn sent(&mut self, after: AfterSend, result: Result<(), String>) -> (step: Step)
        requires
            old(self)@.admits_after(after),
        ensures
            State::sent(old(self)@, after, result, final(self)@, step),
    {
        match after {
            AfterSend::SyncerStopped { swap, chain, rest, outcome } => {
                if result.is_ok() {
                    let _ = self.syncer_clients.remove(&chain);
                    assert(self@ =~= (State {
                        syncer_clients: old(self)@.syncer_clients.remove(chain),
                        ..old(self)@
                    }));
                }
                self.stop_syncers(swap, rest, outcome)
            },
            other => {
                match result {
                    Ok(_) => {},
                    Err(words) => {
                        return Step::Fail(Error::Send(words));
                    },
                }
                match other {
                    AfterSend::CommitAccordant { source, offer, text, commit } => {
                        self.pay_accordant(source, offer, text, commit)
                    },
                    AfterSend::CommitForward { source, offer, commit } => self.forward_commit(
                        source,
                        offer,
                        commit,
                    ),
                    AfterSend::SwapStarted { role, source, swap, report_to } => {
                        self.swap_started(role, source, swap, report_to)
                    },
                    AfterSend::SwapStopped { swap, outcome } => self.release_offer(swap, outcome),
                    AfterSend::PeerStopped { swap, outcome } => self.release_syncers(swap, outcome),
                    AfterSend::Reports(rest) => self.respond(rest),
                    _ => Step::Done,
                }
            },
        }
    }

    fn swap_started(
        &mut self,
        role: TradeRole,
        source: ServiceId,
        swap: SwapId,
        report_to: Option<ServiceId>,
    ) -> (step: Step)
        ensures
            final(self)@ == old(self)@.swap_started(role, source, swap),
            state::reporting(
                old(self)@.identity,
                state::report_to(report_to, Request::Progress(Notice::SwapOperational(source))),
                step,
            ),
    {
        let _ = self.running_swaps.insert(swap);
        match role {
            TradeRole::Maker => {
                let _ = self.making_swaps.remove(&source);
            },
            TradeRole::Taker => {
                let _ = self.taking_swaps.remove(&source);
            },
        }
        assert(self@ =~= old(self)@.swap_started(role, source, swap));
        let mut reports: Vec<Report> = Vec::new();
        match report_to {
            Some(to) => {
                reports.push(
                    Report { to, request: Request::Progress(Notice::SwapOperational(source)) },
                );
            },
            None => {},
        }
        assert(reports@ =~= state::report_to(
            report_to,
            Request::Progress(Notice::SwapOperational(source)),
        ));
        self.respond(reports)
    }

    /// A daemon was launched and has a process identifier, or could not be launched.
    pub fn launched(&mut self, after: AfterLaunch, pid: Result<u32, String>) -> (step: Step)
        ensures
            State::launched(old(self)@, after, pid, final(self)@, step),
    {
        match after {
            AfterLaunch::Swapd { role, init, network } => {
                match self.swapd_launched(role, init, network, pid) {
                    Ok(_) => Step::Done,
                    Err(e) => Step::Fail(e),
                }
            },
            other => match pid {
                Ok(pid) => match other {
                    AfterLaunch::Syncer { chain, start } => {
                        self.syncer_clients.insert(chain, Roster::new());
                        self.spawning_services.insert(
                            ServiceId::Syncer(chain),
                            ServiceId::Farcasterd,
                        );
                        assert(self@ =~= old(self)@.syncer_launched(chain));
                        self.join_syncer(chain, start.swap);
                        match chain.coin {
                            Coin::Bitcoin => self.syncers_up(Coin::Monero, start),
                            Coin::Monero => self.start_swap(start),
                        }
                    },
                    AfterLaunch::Listener(m) => self.register_offer(m, Notice::PeerdLaunched(pid)),
                    AfterLaunch::Swapd { .. } => Step::Done,
                },
                Err(words) => Step::Fail(Error::Launch(words)),
            },
        }
    }
}

} // verus!
