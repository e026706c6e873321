//! What the daemon owes to a swap, from its launch to its end. Each law says what a request leads
//! to, in terms of what was there before.

use crate::addr::{NodeAddr, RemoteSocketAddr};
use crate::chain::{Chain, Coin, Network};
use crate::clock::Moment;
use crate::config::SyncerServers;
use crate::farcasterd::launch::{self, Daemon, Task};
use crate::farcasterd::state::State;
use crate::farcasterd::step::{AfterLaunch, AfterSend, Report, Start, Step};
use crate::ident::{self, OfferId, SwapId};
use crate::offer::{PublicTerms, TradeRole};
use crate::rpc::{Commit, Error, LaunchSwap, Notice, Outcome, Parcel, PubOffer, Request, SwapStart};
use crate::service::{ServiceBus, ServiceId};
use vstd::prelude::*;

verus! {

/// The step is to send a request.
pub open spec fn sends(
    step: Step,
    bus: ServiceBus,
    source: ServiceId,
    dest: ServiceId,
    request: Request,
) -> bool {
    &&& step matches Step::Send(e, _)
    &&& e.bus == bus
    &&& e.source == source
    &&& e.dest == dest
    &&& e.request == request
}

/// The step is to answer once, and that is all.
pub open spec fn answers(step: Step, source: ServiceId, dest: ServiceId, request: Request) -> bool {
    &&& sends(step, ServiceBus::Ctl, source, dest, request)
    &&& step->Send_1 matches AfterSend::Reports(rest)
    &&& rest@.len() == 0
}

/// The step is to answer twice, and that is all.
pub open spec fn answers_twice(
    step: Step,
    source: ServiceId,
    dest: ServiceId,
    first: Request,
    second: Request,
) -> bool {
    &&& sends(step, ServiceBus::Ctl, source, dest, first)
    &&& step->Send_1 matches AfterSend::Reports(rest)
    &&& rest@.len() == 1
    &&& rest@[0] == (Report { to: dest, request: second })
}

/// The task runs a program with these arguments.
pub open spec fn runs(task: Task, daemon: Daemon, args: Seq<Seq<char>>) -> bool {
    &&& task.daemon == daemon
    &&& task.args@.len() == args.len()
    &&& forall|i: int| 0 <= i < args.len() ==> (#[trigger] task.args@[i])@ == args[i]
}

/// How a node is written on a command line.
pub open spec fn node_words(node: NodeAddr) -> Seq<char> {
    let socket = match node.remote_addr {
        RemoteSocketAddr::Ftcp(a) => a,
        RemoteSocketAddr::Zmq(a) => a,
        RemoteSocketAddr::Http(a) => a,
        RemoteSocketAddr::Websocket(a) => a,
        RemoteSocketAddr::Smtp(a) => a,
    };
    (if node.node_id.odd {
        "03"@
    } else {
        "02"@
    }) + ident::hex32(node.node_id.hi, node.node_id.lo) + "@"@ + crate::addr::socket_text(socket)
}

/// The node that a public offer names: its key, and its socket over framed TCP.
pub open spec fn named_node(offer: PublicTerms) -> NodeAddr {
    NodeAddr {
        node_id: offer.node_id,
        remote_addr: RemoteSocketAddr::Ftcp(offer.peer_address),
    }
}

/// No syncer is registered for the chain, and none was launched for it.
pub open spec fn missing(s: State, chain: Chain) -> bool {
    &&& !s.syncer_services.contains_key(chain)
    &&& !s.spawning_services.contains_key(ServiceId::Syncer(chain))
}

/// The swap is among the clients of the chain's syncer, if that has any list of clients, beside
/// those that were there.
pub open spec fn client_of(s: State, chain: Chain, swap: SwapId) -> bool {
    s.syncer_clients.contains_key(chain) ==> s.syncer_clients[chain].contains(swap)
}

/// The clients of a chain were joined by the swap, and by no other.
pub open spec fn joined(pre: State, post: State, chain: Chain, swap: SwapId) -> bool {
    &&& pre.syncer_clients.contains_key(chain) <==> post.syncer_clients.contains_key(chain)
    &&& pre.syncer_clients.contains_key(chain) ==> post.syncer_clients[chain]
        == pre.syncer_clients[chain].insert(swap)
}

/// The clients of a chain are the same.
pub open spec fn same_clients(pre: State, post: State, chain: Chain) -> bool {
    &&& pre.syncer_clients.contains_key(chain) <==> post.syncer_clients.contains_key(chain)
    &&& pre.syncer_clients.contains_key(chain) ==> post.syncer_clients[chain]
        == pre.syncer_clients[chain]
}

/// The servers that are set for a network.
pub open spec fn servers_set(s: State, network: Network) -> Option<SyncerServers> {
    match network {
        Network::Mainnet => s.config.syncer_servers.mainnet,
        Network::Testnet => s.config.syncer_servers.testnet,
        Network::Local => s.config.syncer_servers.local,
    }
}

/// The command line of a syncer, given the servers of its network.
pub open spec fn syncer_args(chain: Chain, servers: SyncerServers) -> Seq<Seq<char>> {
    let network = match chain.network {
        Network::Mainnet => "Mainnet"@,
        Network::Testnet => "Testnet"@,
        Network::Local => "Local"@,
    };
    match chain.coin {
        Coin::Bitcoin => seq![
            "--coin"@,
            "Bitcoin"@,
            "--network"@,
            network,
            "--electrum-server"@,
            servers.electrum_server@,
        ],
        Coin::Monero => seq![
            "--coin"@,
            "Monero"@,
            "--network"@,
            network,
            "--monero-daemon"@,
            servers.monero_daemon@,
            "--monero-rpc-wallet"@,
            servers.monero_rpc_wallet@,
        ],
    }
}

/// A syncer is launched for the chain with the servers of its network, for a swap that waits to be
/// started; or that fails, because the network has no servers.
pub open spec fn launches_syncer(s: State, chain: Chain, start: Start, step: Step) -> bool {
    match servers_set(s, chain.network) {
        Some(servers) => {
            &&& step matches Step::Launch(task, AfterLaunch::Syncer { chain: c, start: w })
            &&& runs(task, Daemon::Syncerd, syncer_args(chain, servers))
            &&& c == chain
            &&& w@ == start
        },
        None => step == Step::Fail(Error::InvalidConfig),
    }
}

/// The daemon of the swap is told to start, with what it is to start with.
pub open spec fn told_to_start(identity: ServiceId, start: Start, step: Step) -> bool {
    &&& step matches Step::Send(e, after)
    &&& e.bus == ServiceBus::Ctl
    &&& e.source == identity
    &&& e.dest == start.source
    &&& match start.role {
        TradeRole::Maker => e.request matches Request::MakeSwap(init) && init@ == start.init,
        TradeRole::Taker => e.request matches Request::TakeSwap(init) && init@ == start.init,
    }
    &&& after == (AfterSend::SwapStarted {
        role: start.role,
        source: start.source,
        swap: start.init.swap_id,
        report_to: start.init.report_to,
    })
}

/// The command line of a syncer, as words.
pub proof fn lemma_syncer_words(s: State, chain: Chain)
    ensures
        match servers_set(s, chain.network) {
            Some(servers) => launch::syncer_words(s.config, chain) == Some(
                syncer_args(chain, servers),
            ),
            None => launch::syncer_words(s.config, chain) is None,
        },
{
    if let Some(servers) = servers_set(s, chain.network) {
        assert(launch::syncer_words(s.config, chain)->0 =~= syncer_args(chain, servers));
    }
}

/// A task that is given by the words of its arguments runs with them.
pub proof fn lemma_runs(task: Task, daemon: Daemon, args: Seq<Seq<char>>)
    requires
        task.is(daemon, args),
    ensures
        runs(task, daemon, args),
{
    assert forall|i: int| 0 <= i < args.len() implies (#[trigger] task.args@[i])@ == args[i] by {
        assert(launch::words(task.args@)[i] == task.args@[i]@);
    }
}

proof fn lemma_launches_syncer(s: State, chain: Chain, start: Start, step: Step)
    requires
        match launch::syncer_words(s.config, chain) {
            Some(words) => step matches Step::Launch(
                task,
                AfterLaunch::Syncer { chain: c, start: w },
            ) && task.is(Daemon::Syncerd, words) && c == chain && w@ == start,
            None => step == Step::Fail(Error::InvalidConfig),
        },
    ensures
        launches_syncer(s, chain, start, step),
{
    lemma_syncer_words(s, chain);
    if let Some(servers) = servers_set(s, chain.network) {
        lemma_runs(step->Launch_0, Daemon::Syncerd, syncer_args(chain, servers));
    }
}

/// A service that says hello is registered as what it is: a peer as connected, a swap as running,
/// a syncer that was launched from here for its chain, unless another one is registered. Nothing
/// else is registered.
pub proof fn law_hello_registers_the_service(
    pre: State,
    source: ServiceId,
    now: Moment,
    post: State,
    step: Step,
)
    requires
        State::handle(pre, ServiceBus::Ctl, source, Request::Hello, now, post, step),
    ensures
        post.connections == match source {
            ServiceId::Peer(node) => pre.connections.insert(node),
            _ => pre.connections,
        },
        post.running_swaps == match source {
            ServiceId::Swap(swap) => pre.running_swaps.insert(swap),
            _ => pre.running_swaps,
        },
        forall|c: Chain| #[trigger]
            post.syncer_services.contains_key(c) <==> pre.syncer_services.contains_key(c) || (source
                == ServiceId::Syncer(c) && pre.spawning_services.contains_key(source)),
        forall|c: Chain| #[trigger]
            post.syncer_services.contains_key(c) ==> post.syncer_services[c] == (
            if pre.syncer_services.contains_key(c) {
                pre.syncer_services[c]
            } else {
                source
            }),
        post == (State {
            connections: post.connections,
            running_swaps: post.running_swaps,
            syncer_services: post.syncer_services,
            syncer_clients: post.syncer_clients,
            spawning_services: post.spawning_services,
            ..pre
        }),
{
    reveal_with_fuel(State::syncers_up, 3);
}

/// Whoever had a service launched is told when it says hello, once; of a service that was not
/// launched from here nobody is told.
pub proof fn law_launcher_is_told_of_hello(
    pre: State,
    source: ServiceId,
    now: Moment,
    post: State,
    step: Step,
)
    requires
        State::handle(pre, ServiceBus::Ctl, source, Request::Hello, now, post, step),
        !pre.making_swaps.contains_key(source),
        !pre.taking_swaps.contains_key(source),
    ensures
        post.syncer_clients == pre.syncer_clients,
        pre.spawning_services.contains_key(source) ==> {
            &&& post.spawning_services == pre.spawning_services.remove(source)
            &&& answers(
                step,
                pre.identity,
                pre.spawning_services[source],
                Request::Success(Some(Notice::ConnectedTo(source))),
            )
        },
        !pre.spawning_services.contains_key(source) ==> step is Done && post.spawning_services
            == pre.spawning_services,
{
}

/// A service that is awaited as a swap and is not the daemon of one fails to start it; but for what
/// its hello registers, nothing changes.
pub proof fn law_only_swap_daemons_are_started(
    pre: State,
    source: ServiceId,
    now: Moment,
    post: State,
    step: Step,
)
    requires
        State::handle(pre, ServiceBus::Ctl, source, Request::Hello, now, post, step),
        pre.making_swaps.contains_key(source) || pre.taking_swaps.contains_key(source),
        !(source is Swap),
    ensures
        step == Step::Fail(Error::NotSwapd),
        post == (State {
            connections: post.connections,
            syncer_services: post.syncer_services,
            ..pre
        }),
{
}

/// A swap that is awaited becomes a client of each syncer of its network in turn, Bitcoin first.
/// Where a syncer is missing it is launched with the servers of the network; where none is, the
/// swap's daemon is told to start as the role it was launched for.
pub proof fn law_hello_of_an_awaited_swap(
    pre: State,
    swap: SwapId,
    role: TradeRole,
    init: SwapStart,
    network: Network,
    now: Moment,
    post: State,
    step: Step,
)
    requires
        State::handle(
            pre,
            ServiceBus::Ctl,
            ServiceId::Swap(swap),
            Request::Hello,
            now,
            post,
            step,
        ),
        match role {
            TradeRole::Maker => pre.making_swaps.contains_key(ServiceId::Swap(swap))
                && pre.making_swaps[ServiceId::Swap(swap)] == (init, network),
            TradeRole::Taker => !pre.making_swaps.contains_key(ServiceId::Swap(swap))
                && pre.taking_swaps.contains_key(ServiceId::Swap(swap))
                && pre.taking_swaps[ServiceId::Swap(swap)] == (init, network),
        },
    ensures
        ({
            let source = ServiceId::Swap(swap);
            let btc = Chain { coin: Coin::Bitcoin, network };
            let xmr = Chain { coin: Coin::Monero, network };
            let start = Start { role, source, swap, init, network };
            &&& post.spawning_services == pre.spawning_services
            &&& forall|c: Chain| c != btc && c != xmr ==> #[trigger] same_clients(pre, post, c)
            &&& missing(pre, btc) ==> same_clients(pre, post, btc) && same_clients(pre, post, xmr)
                && launches_syncer(pre, btc, start, step)
            &&& !missing(pre, btc) ==> joined(pre, post, btc, swap)
            &&& !missing(pre, btc) && missing(pre, xmr) ==> same_clients(pre, post, xmr)
                && launches_syncer(pre, xmr, start, step)
            &&& !missing(pre, btc) && !missing(pre, xmr) ==> joined(pre, post, xmr, swap)
                && told_to_start(pre.identity, start, step)
        }),
{
    reveal_with_fuel(State::syncers_up, 3);
    let btc = Chain { coin: Coin::Bitcoin, network };
    let xmr = Chain { coin: Coin::Monero, network };
    let start = Start { role, source: ServiceId::Swap(swap), swap, init, network };
    if missing(pre, btc) {
        lemma_launches_syncer(pre, btc, start, step);
    } else if missing(pre, xmr) {
        lemma_launches_syncer(pre, xmr, start, step);
    }
}

/// A syncer that was launched for a swap has that swap as its only client, and its hello is
/// awaited. After the one for Bitcoin comes the one for Monero, and then the swap's daemon is told
/// to start. One that could not be launched ends the start, in the words of the system.
pub proof fn law_launched_syncer_serves_its_swap(
    pre: State,
    chain: Chain,
    starting: crate::farcasterd::step::Starting,
    pid: Result<u32, String>,
    post: State,
    step: Step,
)
    requires
        State::launched(pre, AfterLaunch::Syncer { chain, start: starting }, pid, post, step),
    ensures
        pid matches Err(words) ==> post == pre && step == Step::Fail(Error::Launch(words)),
        pid is Ok ==> {
            let start = starting@;
            let xmr = Chain { coin: Coin::Monero, network: start.network };
            &&& post == (State {
                syncer_clients: post.syncer_clients,
                spawning_services: pre.spawning_services.insert(
                    ServiceId::Syncer(chain),
                    ServiceId::Farcasterd,
                ),
                ..pre
            })
            &&& post.syncer_clients.contains_key(chain)
            &&& post.syncer_clients[chain] == set![start.swap]
            &&& forall|c: Chain| c != chain && c != xmr ==> #[trigger] same_clients(pre, post, c)
            &&& match chain.coin {
                Coin::Bitcoin => if missing(pre, xmr) {
                    same_clients(pre, post, xmr) && launches_syncer(pre, xmr, start, step)
                } else {
                    joined(pre, post, xmr, start.swap) && told_to_start(
                        pre.identity,
                        start,
                        step,
                    )
                },
                Coin::Monero => told_to_start(pre.identity, start, step) && (xmr != chain
                    ==> same_clients(pre, post, xmr)),
            }
        },
{
    reveal_with_fuel(State::syncers_up, 3);
    if pid is Ok {
        assert(post.syncer_clients[chain] =~= set![starting.swap]);
        let xmr = Chain { coin: Coin::Monero, network: starting.network };
        if chain.coin is Bitcoin && missing(pre, xmr) {
            lemma_launches_syncer(pre, xmr, starting@, step);
        }
    }
}

/// Whenever the daemon of a swap is told to start, be it at once or after syncers were launched
/// for it, the swap is among the clients of both syncers of its network, as far as these have
/// lists of clients. Clients of syncers that were there before stay.
pub proof fn law_started_swap_uses_both_syncers(
    pre: State,
    swap: SwapId,
    role: TradeRole,
    init: SwapStart,
    network: Network,
    now: Moment,
    s1: State,
    step1: Step,
    pid1: u32,
    s2: State,
    step2: Step,
    pid2: u32,
    s3: State,
    step3: Step,
    coin: Coin,
)
    requires
        State::handle(pre, ServiceBus::Ctl, ServiceId::Swap(swap), Request::Hello, now, s1, step1),
        match role {
            TradeRole::Maker => pre.making_swaps.contains_key(ServiceId::Swap(swap))
                && pre.making_swaps[ServiceId::Swap(swap)] == (init, network),
            TradeRole::Taker => !pre.making_swaps.contains_key(ServiceId::Swap(swap))
                && pre.taking_swaps.contains_key(ServiceId::Swap(swap))
                && pre.taking_swaps[ServiceId::Swap(swap)] == (init, network),
        },
        step1 is Launch ==> State::launched(s1, step1->Launch_1, Ok(pid1), s2, step2),
        step1 is Launch && step2 is Launch ==> State::launched(
            s2,
            step2->Launch_1,
            Ok(pid2),
            s3,
            step3,
        ),
    ensures
        ({
            let chain = Chain { coin, network };
            let kept = |s: State|
                pre.syncer_clients.contains_key(chain) && !missing(pre, chain) ==> {
                    &&& s.syncer_clients.contains_key(chain)
                    &&& pre.syncer_clients[chain].subset_of(s.syncer_clients[chain])
                };
            &&& step1 is Send ==> client_of(s1, chain, swap) && kept(s1)
            &&& step1 is Launch && step2 is Send ==> client_of(s2, chain, swap) && kept(s2)
            &&& step1 is Launch && step2 is Launch ==> step3 is Send && client_of(s3, chain, swap)
                && kept(s3)
        }),
{
    reveal_with_fuel(State::syncers_up, 3);
    law_hello_of_an_awaited_swap(pre, swap, role, init, network, now, s1, step1);
}

/// What a swap's daemon leads to once it was told to start: the swap runs, is awaited no longer,
/// and whoever is to be told learns that it is operational. If it could not be told, nothing has
/// changed.
pub proof fn law_start_that_was_sent(
    pre: State,
    role: TradeRole,
    source: ServiceId,
    swap: SwapId,
    report_to: Option<ServiceId>,
    result: Result<(), String>,
    post: State,
    step: Step,
)
    requires
        State::sent(
            pre,
            AfterSend::SwapStarted { role, source, swap, report_to },
            result,
            post,
            step,
        ),
    ensures
        result matches Err(words) ==> post == pre && step == Step::Fail(Error::Send(words)),
        result is Ok ==> {
            &&& post == (State {
                running_swaps: pre.running_swaps.insert(swap),
                making_swaps: if role is Maker {
                    pre.making_swaps.remove(source)
                } else {
                    pre.making_swaps
                },
                taking_swaps: if role is Taker {
                    pre.taking_swaps.remove(source)
                } else {
                    pre.taking_swaps
                },
                ..pre
            })
            &&& match report_to {
                Some(to) => answers(
                    step,
                    pre.identity,
                    to,
                    Request::Progress(Notice::SwapOperational(source)),
                ),
                None => step is Done,
            }
        },
{
}

/// A commitment that may be absent, as what it holds.
pub open spec fn commit_parcel(c: Option<Commit>) -> Option<Parcel> {
    match c {
        Some(Commit::Alice(v)) => Some(Parcel { alice: true, bytes: v@ }),
        Some(Commit::Bob(v)) => Some(Parcel { alice: false, bytes: v@ }),
        None => None,
    }
}

/// A swap is launched for an offer that is registered, once: the offer then counts as consumed by
/// the swap, and the swap's daemon gets the swap's identifier, the text of the offer and the role.
/// It is to speak through the daemon that the taker's commitment came from; without one, a maker
/// through the daemon of the listener of the offer, and a taker through that of the node that the
/// offer names.
pub proof fn law_swap_is_launched_for_its_offer(
    pre: State,
    source: ServiceId,
    req: LaunchSwap,
    now: Moment,
    post: State,
    step: Step,
)
    requires
        State::handle(pre, ServiceBus::Ctl, source, Request::LaunchSwap(req), now, post, step),
        pre.stats.initialized < u64::MAX,
    ensures
        ({
            let offer = req.public_offer@;
            let id = offer.offer.uuid;
            let listened = pre.listens.contains_key(id) && pre.node_ids.contains_key(id);
            if req.local_trade_role is Maker && !listened {
                post == pre && step is Done
            } else if !pre.public_offers.contains_key(offer.text@) {
                post == pre && step == Step::Fail(Error::UnknownOffer)
            } else {
                let node = if req.local_trade_role is Maker {
                    NodeAddr { node_id: pre.node_ids[id], remote_addr: pre.listens[id] }
                } else {
                    named_node(offer)
                };
                &&& post == (State {
                    public_offers: pre.public_offers.remove(offer.text@),
                    consumed_offers: pre.consumed_offers.insert(id, req.swap_id),
                    stats: post.stats,
                    ..pre
                })
                &&& post.stats.initialized == pre.stats.initialized + 1
                &&& post.stats == (crate::farcasterd::stats::Stats {
                    initialized: post.stats.initialized,
                    ..pre.stats
                })
                &&& step matches Step::Launch(task, AfterLaunch::Swapd { role, init, network })
                &&& runs(
                    task,
                    Daemon::Swapd,
                    seq![
                        ident::hex32(req.swap_id.hi, req.swap_id.lo),
                        offer.text@,
                        if req.local_trade_role is Maker {
                            "Maker"@
                        } else {
                            "Taker"@
                        },
                    ],
                )
                &&& role == req.local_trade_role
                &&& network == offer.offer.network
                &&& init@.peerd == (if pre.peerd_ids.contains_key(id) {
                    pre.peerd_ids[id]
                } else {
                    ServiceId::Peer(node)
                })
                &&& init@.report_to == Some(pre.identity)
                &&& init@.local_params == req.local_params@
                &&& init@.swap_id == req.swap_id
                &&& init@.remote_commit == commit_parcel(req.remote_commit)
                &&& init@.funding_address == req.funding_address
            }
        }),
{
}

/// The daemon of a swap that was launched is awaited with what it was launched with, as maker or
/// as taker; one that could not be launched is not.
pub proof fn law_launched_swap_is_awaited(
    pre: State,
    role: TradeRole,
    init: crate::rpc::InitSwap,
    network: Network,
    pid: Result<u32, String>,
    post: State,
    step: Step,
)
    requires
        State::launched(pre, AfterLaunch::Swapd { role, init, network }, pid, post, step),
    ensures
        pid matches Err(words) ==> post == pre && step == Step::Fail(Error::Launch(words)),
        pid is Ok ==> {
            let k = ServiceId::Swap(init@.swap_id);
            &&& step is Done
            &&& role is Maker ==> post == (State {
                making_swaps: pre.making_swaps.insert(k, (init@, network)),
                ..pre
            })
            &&& role is Taker ==> post == (State {
                taking_swaps: pre.taking_swaps.insert(k, (init@, network)),
                ..pre
            })
        },
{
}

/// A taker's swap speaks through the daemon that its offer was taken through. When an offer is
/// taken and then a swap is launched for it as taker, with no commitment that names another
/// daemon, then the swap is to speak through the daemon of a node that taking the offer found
/// connected or had connected to, and whose hello makes it connected.
pub proof fn law_taker_speaks_through_the_peer_it_connected(
    pre: State,
    client: ServiceId,
    take: PubOffer,
    now: Moment,
    mid: State,
    taken: Step,
    later: State,
    wallet: ServiceId,
    req: LaunchSwap,
    post: State,
    end: Step,
    before: State,
    after: State,
    hello: Step,
)
    requires
        State::handle(pre, ServiceBus::Ctl, client, Request::TakeOffer(take), now, mid, taken),
        req.public_offer@ == take.public_offer@,
        req.local_trade_role is Taker,
        !later.peerd_ids.contains_key(req.public_offer@.offer.uuid),
        State::handle(later, ServiceBus::Ctl, wallet, Request::LaunchSwap(req), now, post, end),
        end is Launch,
        State::handle(
            before,
            ServiceBus::Ctl,
            end->Launch_1->Swapd_init@.peerd,
            Request::Hello,
            now,
            after,
            hello,
        ),
    ensures
        end->Launch_1->Swapd_init@.peerd is Peer,
        ({
            let node = end->Launch_1->Swapd_init@.peerd->Peer_0;
            &&& node == named_node(take.public_offer@)
            &&& after.connections.contains(node)
            &&& (taken matches Step::Send(e, _) && e.request is TakeOffer)
                ==> pre.connections.contains(node)
            &&& taken matches Step::Watch(task, watch) ==> {
                &&& !pre.connections.contains(node)
                &&& watch.peer == node
                &&& task.args@[1]@ == node_words(node)
            }
        }),
{
    reveal_with_fuel(State::syncers_up, 3);
    if let Step::Watch(task, _) = taken {
        let node = named_node(take.public_offer@);
        let key = take.peer_secret_key->0;
        lemma_runs(task, Daemon::Peerd, launch::connect_words(node, key, pre.wallet_token@));
    }
}

/// The end of a swap that runs starts with its daemon being told to stop; only the daemon of a
/// swap can report its end.
pub proof fn law_end_of_swap_begins_with_its_daemon(
    pre: State,
    source: ServiceId,
    outcome: Outcome,
    now: Moment,
    post: State,
    step: Step,
)
    requires
        State::handle(pre, ServiceBus::Ctl, source, Request::SwapOutcome(outcome), now, post, step),
    ensures
        !(source is Swap) ==> post == pre && step == Step::Fail(Error::NotSwapd),
        source matches ServiceId::Swap(swap) ==> {
            &&& pre.running_swaps.contains(swap) ==> {
                &&& post == (State { running_swaps: pre.running_swaps.remove(swap), ..pre })
                &&& sends(step, ServiceBus::Ctl, pre.identity, source, Request::Terminate)
                &&& step->Send_1 == (AfterSend::SwapStopped { swap, outcome })
            }
            &&& !pre.running_swaps.contains(swap) ==> gives_up_listener(
                pre,
                swap,
                outcome,
                post,
                step,
            )
        },
{
    if let ServiceId::Swap(swap) = source {
        if !pre.running_swaps.contains(swap) {
            lemma_release_offer(pre, swap, outcome, post, step);
        }
    }
}

/// Nothing of a listener has changed.
pub open spec fn same_listeners(a: State, b: State) -> bool {
    &&& b.listens == a.listens
    &&& b.node_ids == a.node_ids
    &&& b.peerd_ids == a.peerd_ids
    &&& b.connections == a.connections
}

/// What is left when the listener of an offer is given up, and whether its peer daemon is to stop:
/// it is if it is connected and no other offer is listened for at its address.
pub open spec fn listener_given_up(a: State, offer: OfferId, b: State, stops: bool) -> bool {
    if a.listens.contains_key(offer) && a.node_ids.contains_key(offer) {
        let node = NodeAddr { node_id: a.node_ids[offer], remote_addr: a.listens[offer] };
        &&& b.listens == a.listens.remove(offer)
        &&& b.node_ids == a.node_ids.remove(offer)
        &&& b.peerd_ids == a.peerd_ids.remove(offer)
        &&& stops == (a.connections.contains(node) && forall|k: OfferId|
            k != offer && #[trigger] a.listens.contains_key(k) ==> a.listens[k] != a.listens[offer])
        &&& b.connections == (if stops {
            a.connections.remove(node)
        } else {
            a.connections
        })
    } else {
        same_listeners(a, b) && !stops
    }
}

/// Of the offers that the swap consumed none is consumed any more, the others are.
pub open spec fn offers_let_go(a: State, b: State, swap: SwapId) -> bool {
    &&& forall|k: OfferId| #[trigger]
        b.consumed_offers.contains_key(k) <==> a.consumed_offers.contains_key(k)
            && a.consumed_offers[k] != swap
    &&& forall|k: OfferId| #[trigger]
        b.consumed_offers.contains_key(k) ==> b.consumed_offers[k] == a.consumed_offers[k]
}

/// The offer that the swap consumed is free again and no longer listened for. If its peer daemon is
/// in use no more, that is told to stop; else the clean-up goes on with the syncers.
pub open spec fn gives_up_listener(
    a: State,
    swap: SwapId,
    outcome: Outcome,
    b: State,
    step: Step,
) -> bool {
    &&& offers_let_go(a, b, swap)
    &&& if exists|o: OfferId| #[trigger]
        a.consumed_offers.contains_key(o) && a.consumed_offers[o] == swap {
        exists|o: OfferId, stops: bool| #[trigger]
            listener_given_up(a, o, b, stops) && a.consumed_offers.contains_key(o)
                && a.consumed_offers[o] == swap && if stops {
                &&& sends(
                    step,
                    ServiceBus::Ctl,
                    a.identity,
                    ServiceId::Peer(
                        NodeAddr { node_id: a.node_ids[o], remote_addr: a.listens[o] },
                    ),
                    Request::Terminate,
                )
                &&& step->Send_1 == (AfterSend::PeerStopped { swap, outcome })
                &&& b.syncer_clients == a.syncer_clients
                &&& b.syncer_services == a.syncer_services
                &&& b.stats == a.stats
            } else {
                ends_syncers_of(a, swap, outcome, b, step)
            }
    } else {
        same_listeners(a, b) && ends_syncers_of(a, swap, outcome, b, step)
    }
}

/// No client is left of the chain's syncer.
pub open spec fn without_clients(s: State, chain: Chain) -> bool {
    s.syncer_clients.contains_key(chain) && forall|swap: SwapId| !(
    #[trigger] s.syncer_clients[chain].contains(swap))
}

/// Each syncer without clients loses its place, an outcome is counted, and that is all.
pub open spec fn counted(a: State, outcome: Outcome, b: State) -> bool {
    &&& forall|c: Chain| #[trigger]
        b.syncer_services.contains_key(c) <==> a.syncer_services.contains_key(c)
            && b.syncer_clients.contains_key(c)
    &&& forall|c: Chain| #[trigger]
        b.syncer_services.contains_key(c) ==> b.syncer_services[c] == a.syncer_services[c]
    &&& a.stats.success < u64::MAX && a.stats.refund < u64::MAX && a.stats.punish < u64::MAX ==> {
        &&& b.stats.success == a.stats.success + (if outcome is Buy {
            1int
        } else {
            0
        })
        &&& b.stats.refund == a.stats.refund + (if outcome is Refund {
            1int
        } else {
            0
        })
        &&& b.stats.punish == a.stats.punish + (if outcome is Punish {
            1int
        } else {
            0
        })
    }
    &&& b.stats == (crate::farcasterd::stats::Stats {
        success: b.stats.success,
        refund: b.stats.refund,
        punish: b.stats.punish,
        ..a.stats
    })
}

/// The swap leaves every syncer, and no other swap does. Those that have no clients then are told to
/// stop, one after the other; where there are none, the outcome is counted.
pub open spec fn ends_syncers_of(
    a: State,
    swap: SwapId,
    outcome: Outcome,
    b: State,
    step: Step,
) -> bool {
    &&& forall|c: Chain| #[trigger]
        b.syncer_clients.contains_key(c) <==> a.syncer_clients.contains_key(c)
    &&& forall|c: Chain| #[trigger]
        b.syncer_clients.contains_key(c) ==> b.syncer_clients[c] == a.syncer_clients[c].remove(swap)
    &&& match step {
        Step::Done => counted(a, outcome, b) && forall|c: Chain| !#[trigger] without_clients(b, c),
        Step::Send(e, AfterSend::SyncerStopped { swap: s, chain, rest, outcome: o }) => {
            &&& sends(
                step,
                ServiceBus::Ctl,
                a.identity,
                ServiceId::Syncer(chain),
                Request::Terminate,
            )
            &&& s == swap
            &&& o == outcome
            &&& without_clients(b, chain)
            &&& !rest@.contains(chain)
            &&& rest@.no_duplicates()
            &&& forall|c: Chain|
                c != chain ==> (rest@.contains(c) <==> #[trigger] without_clients(b, c))
            &&& b.syncer_services == a.syncer_services
            &&& b.stats == a.stats
        },
        _ => false,
    }
}

proof fn lemma_release_syncers(pre: State, swap: SwapId, outcome: Outcome, post: State, step: Step)
    requires
        State::release_syncers(pre, swap, outcome, post, step),
    ensures
        ends_syncers_of(pre, swap, outcome, post, step),
        post == (State {
            syncer_clients: post.syncer_clients,
            syncer_services: post.syncer_services,
            stats: post.stats,
            ..pre
        }),
{
    let s = pre.syncers_left(swap);
    let idle = choose|idle: Seq<Chain>| #[trigger]
        crate::table::lists(idle, s.idle_syncers()) && State::stop_syncers(
            s,
            swap,
            idle,
            outcome,
            post,
            step,
        );
    assert forall|c: Chain| idle.contains(c) <==> #[trigger] without_clients(s, c) by {
        if idle.contains(c) {
            assert(s.idle_syncers().contains(idle[idle.index_of(c)]));
        }
        if without_clients(s, c) {
            assert(s.syncer_clients[c] =~= Set::<SwapId>::empty());
            assert(s.idle_syncers().contains(c));
        }
    }
    if idle.len() > 0 {
        let rest = idle.drop_last();
        let chain = idle.last();
        assert(idle.contains(chain));
        assert(without_clients(s, chain));
        assert forall|c: Chain| c != chain implies (rest.contains(c) <==> #[trigger]
        without_clients(post, c)) by {
            assert(without_clients(s, c) <==> without_clients(post, c));
            if idle.contains(c) {
                let i = idle.index_of(c);
                assert(rest[i] == c);
            }
            if rest.contains(c) {
                let i = rest.index_of(c);
                assert(idle[i] == c);
            }
        }
        assert(!rest.contains(chain)) by {
            if rest.contains(chain) {
                let i = rest.index_of(chain);
                assert(idle[i] == idle[idle.len() - 1]);
            }
        }
    } else {
        assert forall|c: Chain| !#[trigger] without_clients(post, c) by {
            assert(without_clients(s, c) <==> without_clients(post, c));
        }
    }
}

proof fn lemma_release_offer(pre: State, swap: SwapId, outcome: Outcome, post: State, step: Step)
    requires
        State::release_offer(pre, swap, outcome, post, step),
    ensures
        gives_up_listener(pre, swap, outcome, post, step),
{
    let s = pre.offers_released(swap);
    if exists|o: OfferId| #[trigger]
        pre.consumed_offers.contains_key(o) && pre.consumed_offers[o] == swap {
        let o = choose|o: OfferId| #[trigger]
            pre.consumed_offers.contains_key(o) && pre.consumed_offers[o] == swap
                && State::release_listener(s, o, swap, outcome, post, step);
        if s.listens.contains_key(o) && s.node_ids.contains_key(o) {
            let t = s.listener_released(o);
            let node = s.listening_node(o);
            let unused = forall|k: OfferId|
                k != o && #[trigger] pre.listens.contains_key(k) ==> pre.listens[k]
                    != pre.listens[o];
            assert(unused == !t.listens.values().contains(node.remote_addr)) by {
                if t.listens.values().contains(node.remote_addr) {
                    let k = choose|k: OfferId|
                        t.listens.contains_key(k) && t.listens[k] == node.remote_addr;
                    assert(k != o && pre.listens.contains_key(k));
                }
                if !unused {
                    let k = choose|k: OfferId|
                        k != o && #[trigger] pre.listens.contains_key(k) && pre.listens[k]
                            == pre.listens[o];
                    assert(t.listens.contains_key(k) && t.listens[k] == node.remote_addr);
                }
            }
            let stops = unused && pre.connections.contains(node);
            if !stops {
                lemma_release_syncers(t, swap, outcome, post, step);
            }
            assert(listener_given_up(pre, o, post, stops));
        } else {
            lemma_release_syncers(s, swap, outcome, post, step);
            assert(listener_given_up(pre, o, post, false));
        }
    } else {
        lemma_release_syncers(s, swap, outcome, post, step);
    }
}

/// The end of a swap goes on where it was left: after the swap's daemon the listener of its offer,
/// after the peer daemon the syncers, and after each syncer the next. A syncer that could not be
/// told keeps its clients' list; anything else that could not be told ends the clean-up.
pub proof fn law_end_of_swap_goes_on(
    pre: State,
    swap: SwapId,
    outcome: Outcome,
    chain: Chain,
    rest: Vec<Chain>,
    result: Result<(), String>,
    post: State,
    step: Step,
)
    ensures
        State::sent(pre, AfterSend::SwapStopped { swap, outcome }, result, post, step) ==> {
            &&& result is Ok ==> gives_up_listener(pre, swap, outcome, post, step)
            &&& result matches Err(words) ==> post == pre && step == Step::Fail(Error::Send(words))
        },
        State::sent(pre, AfterSend::PeerStopped { swap, outcome }, result, post, step) ==> {
            &&& result is Ok ==> same_listeners(pre, post) && post.consumed_offers
                == pre.consumed_offers && ends_syncers_of(pre, swap, outcome, post, step)
            &&& result matches Err(words) ==> post == pre && step == Step::Fail(Error::Send(words))
        },
        State::sent(
            pre,
            AfterSend::SyncerStopped { swap, chain, rest, outcome },
            result,
            post,
            step,
        ) ==> {
            &&& post.syncer_clients == (if result is Ok {
                pre.syncer_clients.remove(chain)
            } else {
                pre.syncer_clients
            })
            &&& if rest@.len() == 0 {
                step is Done && counted(pre, outcome, post)
            } else {
                &&& sends(
                    step,
                    ServiceBus::Ctl,
                    pre.identity,
                    ServiceId::Syncer(rest@.last()),
                    Request::Terminate,
                )
                &&& step->Send_1 matches AfterSend::SyncerStopped {
                    swap: s,
                    chain: c,
                    rest: r,
                    outcome: o,
                }
                &&& s == swap
                &&& c == rest@.last()
                &&& r@ == rest@.drop_last()
                &&& o == outcome
                &&& post == (State { syncer_clients: post.syncer_clients, ..pre })
            }
        },
{
    if State::sent(pre, AfterSend::SwapStopped { swap, outcome }, result, post, step) && result
        is Ok {
        lemma_release_offer(pre, swap, outcome, post, step);
    }
    if State::sent(pre, AfterSend::PeerStopped { swap, outcome }, result, post, step) && result
        is Ok {
        lemma_release_syncers(pre, swap, outcome, post, step);
    }
}

/// A syncer that another swap is a client of is left alone by the end of a swap, however far that
/// has come: the other swap stays its client, it stays registered, and it is neither told to stop
/// nor on the list of those that are still to be told.
pub proof fn law_syncer_outlives_its_other_clients(
    pre: State,
    ended: SwapId,
    other: SwapId,
    chain: Chain,
    outcome: Outcome,
    now: Moment,
    after: AfterSend,
    result: Result<(), String>,
    post: State,
    step: Step,
)
    requires
        pre.syncer_clients.contains_key(chain),
        pre.syncer_clients[chain].contains(other),
        other != ended,
        match after {
            AfterSend::SwapStopped { swap, .. } => swap == ended,
            AfterSend::PeerStopped { swap, .. } => swap == ended,
            AfterSend::SyncerStopped { chain: c, rest, .. } => c != chain && !rest@.contains(chain),
            _ => false,
        },
        State::sent(pre, after, result, post, step) || State::handle(
            pre,
            ServiceBus::Ctl,
            ServiceId::Swap(ended),
            Request::SwapOutcome(outcome),
            now,
            post,
            step,
        ),
    ensures
        post.syncer_clients.contains_key(chain),
        post.syncer_clients[chain].contains(other),
        pre.syncer_services.contains_key(chain) ==> post.syncer_services.contains_key(chain),
        step matches Step::Send(e, _) ==> e.dest != ServiceId::Syncer(chain),
        step matches Step::Send(_, AfterSend::SyncerStopped { chain: c, rest, .. }) ==> c != chain
            && !rest@.contains(chain),
{
    if State::sent(pre, after, result, post, step) {
        match after {
            AfterSend::SwapStopped { swap, outcome: o } => {
                law_end_of_swap_goes_on(pre, swap, o, chain, arbitrary(), result, post, step);
            },
            AfterSend::PeerStopped { swap, outcome: o } => {
                law_end_of_swap_goes_on(pre, swap, o, chain, arbitrary(), result, post, step);
            },
            AfterSend::SyncerStopped { swap, chain: c, rest, outcome: o } => {
                law_end_of_swap_goes_on(pre, swap, o, c, rest, result, post, step);
                if rest@.len() > 0 {
                    assert(rest@.contains(rest@.last()));
                    if rest@.drop_last().contains(chain) {
                        let i = rest@.drop_last().index_of(chain);
                        assert(rest@[i] == chain);
                    }
                }
            },
            _ => {},
        }
    } else {
        law_end_of_swap_begins_with_its_daemon(
            pre,
            ServiceId::Swap(ended),
            outcome,
            now,
            post,
            step,
        );
    }
    assert(post.syncer_clients.contains_key(chain));
    assert(post.syncer_clients[chain].contains(other));
    assert(!without_clients(post, chain));
}

} // verus!
