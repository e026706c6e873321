//! What the daemon owes to clients and to those who pay: lists, progress and funding. Each law says
//! what a request leads to, in terms of what was there before.

use crate::addr::{self, NodeAddr, RemoteSocketAddr};
use crate::chain::{BitcoinNetwork, Chain, Coin, MoneroNetwork, Network};
use crate::clock::Moment;
use crate::config::{AutoFundingServers, Config};
use crate::farcasterd::launch;
use crate::farcasterd::offer_laws;
use crate::farcasterd::runtime::Runtime;
use crate::farcasterd::state::{self, State};
use crate::farcasterd::stats::Stats;
use crate::farcasterd::step::{AfterDescribe, AfterSend, FundingWallet, Report, Step};
use crate::farcasterd::swap_laws;
use crate::ident::{OfferId, PublicKey, RequestId, SwapId};
use crate::offer::{PublicOffer, PublicTerms, TradeRole};
use crate::rpc::{Error, FundingInfo, InitSwap, Notice, Outcome, Request};
use crate::service::{ServiceBus, ServiceId};
use crate::table;
use crate::text;
use vstd::prelude::*;

verus! {

/// Before any request the daemon knows of nothing, and nothing is counted.
pub proof fn law_daemon_starts_with_nothing(config: Config, wallet_token: String, started: Moment)
    ensures
        ({
            let s = State::initial(config, wallet_token, started);
            &&& s.identity == ServiceId::Farcasterd
            &&& s.config == config
            &&& s.wallet_token == wallet_token
            &&& s.started == started
            &&& s.listens == Map::<OfferId, RemoteSocketAddr>::empty()
            &&& s.connections == Set::<NodeAddr>::empty()
            &&& s.running_swaps == Set::<SwapId>::empty()
            &&& s.spawning_services.dom() == Set::<ServiceId>::empty()
            &&& s.making_swaps.dom() == Set::<ServiceId>::empty()
            &&& s.taking_swaps.dom() == Set::<ServiceId>::empty()
            &&& s.public_offers.dom() == Set::<Seq<char>>::empty()
            &&& s.arb_addrs.dom() == Set::<Seq<char>>::empty()
            &&& s.acc_addrs.dom() == Set::<Seq<char>>::empty()
            &&& s.consumed_offers.dom() == Set::<OfferId>::empty()
            &&& s.node_ids.dom() == Set::<OfferId>::empty()
            &&& s.peerd_ids.dom() == Set::<OfferId>::empty()
            &&& s.pending_requests.dom() == Set::<RequestId>::empty()
            &&& s.syncer_services.dom() == Set::<Chain>::empty()
            &&& s.syncer_clients.dom() == Set::<Chain>::empty()
            &&& s.progress.dom() == Set::<ServiceId>::empty()
            &&& s.funding_btc.dom() == Set::<SwapId>::empty()
            &&& s.funding_xmr.dom() == Set::<SwapId>::empty()
            &&& s.stats == (Stats {
                success: 0,
                refund: 0,
                punish: 0,
                initialized: 0,
                awaiting_funding_btc: 0,
                awaiting_funding_xmr: 0,
                funded_xmr: 0,
                funded_btc: 0,
                funding_canceled_xmr: 0,
            })
        }),
{
}

/// The step is to send a request, and that ends what was going on.
pub open spec fn replies(step: Step, source: ServiceId, dest: ServiceId, request: Request) -> bool {
    swap_laws::sends(step, ServiceBus::Ctl, source, dest, request) && step->Send_1 is Finish
}

/// Holds each item of the set once, and nothing else.
pub open spec fn each_once<A>(v: Seq<A>, s: Set<A>) -> bool {
    &&& v.no_duplicates()
    &&& forall|a: A| v.contains(a) <==> #[trigger] s.contains(a)
}

/// Holds the value of each key once, and nothing else.
pub open spec fn value_of_each<K, V>(v: Seq<V>, m: Map<K, V>) -> bool {
    exists|keys: Seq<K>|
        {
            &&& #[trigger] each_once(keys, m.dom())
            &&& v.len() == keys.len()
            &&& forall|i: int| 0 <= i < v.len() ==> #[trigger] v[i] == m[keys[i]]
        }
}

proof fn lemma_each_once<A>(v: Seq<A>, s: Set<A>)
    requires
        table::lists(v, s),
    ensures
        each_once(v, s),
{
    assert forall|a: A| v.contains(a) <==> #[trigger] s.contains(a) by {
        if v.contains(a) {
            assert(s.contains(v[v.index_of(a)]));
        }
    }
}

proof fn lemma_value_of_each<K, V>(v: Seq<V>, m: Map<K, V>)
    requires
        table::lists_values(v, m),
    ensures
        value_of_each(v, m),
{
    let keys = choose|keys: Seq<K>| #[trigger]
        table::lists(keys, m.dom()) && v == table::looked_up(keys, m);
    lemma_each_once(keys, m.dom());
    assert(each_once(keys, m.dom()));
}

/// Nanoseconds since the start of 1970.
pub open spec fn nanos_of(m: Moment) -> int {
    m.secs * 1_000_000_000 + m.nanos
}

/// A client that asks for the peers or the swaps learns each that is there, once.
pub proof fn law_client_learns_peers_and_swaps(
    pre: State,
    source: ServiceId,
    now: Moment,
    post: State,
    step: Step,
)
    ensures
        State::handle(pre, ServiceBus::Ctl, source, Request::ListPeers, now, post, step) ==> {
            &&& post == pre
            &&& step matches Step::Send(e, _)
            &&& e.request matches Request::PeerList(v)
            &&& each_once(v@, pre.connections)
            &&& replies(step, ServiceId::Farcasterd, source, e.request)
        },
        State::handle(pre, ServiceBus::Ctl, source, Request::ListSwaps, now, post, step) ==> {
            &&& post == pre
            &&& step matches Step::Send(e, _)
            &&& e.request matches Request::SwapList(v)
            &&& each_once(v@, pre.running_swaps)
            &&& replies(step, ServiceId::Farcasterd, source, e.request)
        },
{
    if State::handle(pre, ServiceBus::Ctl, source, Request::ListPeers, now, post, step) {
        lemma_each_once(step->Send_0.request->PeerList_0@, pre.connections);
    }
    if State::handle(pre, ServiceBus::Ctl, source, Request::ListSwaps, now, post, step) {
        lemma_each_once(step->Send_0.request->SwapList_0@, pre.running_swaps);
    }
}

/// What a list of offers holds.
pub open spec fn terms_of(v: Seq<PublicOffer>) -> Seq<PublicTerms> {
    Seq::new(v.len(), |i: int| v[i]@)
}

/// A client that asks for the offers learns each that is registered and that no swap has consumed,
/// once, and no other.
pub proof fn law_client_learns_open_offers(
    pre: State,
    source: ServiceId,
    now: Moment,
    post: State,
    step: Step,
)
    requires
        State::handle(pre, ServiceBus::Ctl, source, Request::ListOffers, now, post, step),
    ensures
        post == pre,
        step is Send,
        step->Send_0.request is OfferList,
        replies(step, ServiceId::Farcasterd, source, step->Send_0.request),
        ({
            let v = terms_of(step->Send_0.request->OfferList_0@);
            exists|keys: Seq<Seq<char>>|
                {
                    &&& #[trigger] keys.no_duplicates()
                    &&& keys.len() == v.len()
                    &&& forall|i: int| 0 <= i < v.len() ==> #[trigger] v[i]
                        == pre.public_offers[keys[i]]
                    &&& forall|t: Seq<char>|
                        keys.contains(t) <==> (#[trigger] pre.public_offers.contains_key(t)
                            && !pre.consumed_offers.contains_key(
                            pre.public_offers[t].offer.uuid,
                        ))
                }
        }),
{
    let v = terms_of(step->Send_0.request->OfferList_0@);
    let open = pre.open_offers();
    assert(v =~= crate::offer::offer_views(step->Send_0.request->OfferList_0@));
    lemma_value_of_each(v, open);
    let keys = choose|keys: Seq<Seq<char>>|
        {
            &&& #[trigger] each_once(keys, open.dom())
            &&& v.len() == keys.len()
            &&& forall|i: int| 0 <= i < v.len() ==> #[trigger] v[i] == open[keys[i]]
        };
    assert forall|t: Seq<char>|
        keys.contains(t) <==> (#[trigger] pre.public_offers.contains_key(t)
            && !pre.consumed_offers.contains_key(pre.public_offers[t].offer.uuid)) by {
        assert(keys.contains(t) <==> open.dom().contains(t));
    }
    assert forall|i: int| 0 <= i < v.len() implies #[trigger] v[i] == pre.public_offers[keys[i]] by {
        assert(keys.contains(keys[i]));
        assert(open.dom().contains(keys[i]));
    }
    assert(keys.no_duplicates());
}

/// The URL of an address.
pub open spec fn url_of(a: RemoteSocketAddr) -> Seq<char> {
    let scheme = match a {
        RemoteSocketAddr::Ftcp(_) => "lnp://"@,
        RemoteSocketAddr::Zmq(_) => "lnpz://"@,
        RemoteSocketAddr::Http(_) => "lnph://"@,
        RemoteSocketAddr::Websocket(_) => "lnpws://"@,
        RemoteSocketAddr::Smtp(_) => "lnpm://"@,
    };
    scheme + addr::socket_text(offer_laws::socket_in(a))
}

/// A client that asks what is listened at learns the URL of the address of each offer that is
/// listened for, once for each of them.
pub proof fn law_client_learns_listeners(
    pre: State,
    source: ServiceId,
    now: Moment,
    post: State,
    step: Step,
)
    requires
        State::handle(pre, ServiceBus::Ctl, source, Request::ListListens, now, post, step),
    ensures
        post == pre,
        step is Send,
        step->Send_0.request is ListenList,
        replies(step, ServiceId::Farcasterd, source, step->Send_0.request),
        ({
            let v = step->Send_0.request->ListenList_0@;
            exists|keys: Seq<OfferId>|
                {
                    &&& #[trigger] each_once(keys, pre.listens.dom())
                    &&& keys.len() == v.len()
                    &&& forall|i: int| 0 <= i < v.len() ==> (#[trigger] v[i])@ == url_of(
                        pre.listens[keys[i]],
                    )
                }
        }),
{
    let v = step->Send_0.request->ListenList_0@;
    let urls = pre.listens.map_values(|a: RemoteSocketAddr| a.url());
    let words = launch::words(v);
    lemma_value_of_each(words, urls);
    let keys = choose|keys: Seq<OfferId>|
        {
            &&& #[trigger] each_once(keys, urls.dom())
            &&& words.len() == keys.len()
            &&& forall|i: int| 0 <= i < words.len() ==> #[trigger] words[i] == urls[keys[i]]
        };
    assert(urls.dom() =~= pre.listens.dom());
    assert(each_once(keys, pre.listens.dom()));
    assert forall|i: int| 0 <= i < v.len() implies (#[trigger] v[i])@ == url_of(
        pre.listens[keys[i]],
    ) by {
        assert(words[i] == urls[keys[i]]);
        assert(keys.contains(keys[i]));
        assert(pre.listens.dom().contains(keys[i]));
    }
}

/// A client that asks for the node learns the node keys, each once; the address of each offer that
/// is listened for; how long the daemon runs, and since when; and the peers, swaps and public
/// offers that are there.
pub proof fn law_client_learns_of_the_node(
    pre: State,
    source: ServiceId,
    now: Moment,
    post: State,
    step: Step,
)
    requires
        State::handle(pre, ServiceBus::Ctl, source, Request::GetInfo, now, post, step),
    ensures
        post == pre,
        step is Send,
        step->Send_0.request is NodeInfo,
        replies(step, ServiceId::Farcasterd, source, step->Send_0.request),
        ({
            let info = step->Send_0.request->NodeInfo_0;
            let age = nanos_of(now) - nanos_of(pre.started);
            &&& info.node_ids@.no_duplicates()
            &&& forall|k: PublicKey|
                info.node_ids@.contains(k) <==> exists|o: OfferId| #[trigger]
                    pre.node_ids.contains_key(o) && pre.node_ids[o] == k
            &&& value_of_each(info.listens@, pre.listens)
            &&& info.uptime == (if age > 0 {
                age
            } else {
                0
            })
            &&& nanos_of(pre.started) >= 0 ==> info.since <= nanos_of(pre.started) / 1_000_000_000
                < info.since + 1
            &&& nanos_of(pre.started) < 0 ==> info.since == 0
            &&& each_once(info.peers@, pre.connections)
            &&& each_once(info.swaps@, pre.running_swaps)
            &&& value_of_each(terms_of(info.offers@), pre.public_offers)
        }),
{
    let info = step->Send_0.request->NodeInfo_0;
    lemma_each_once(info.node_ids@, pre.node_ids.values());
    lemma_value_of_each(info.listens@, pre.listens);
    lemma_each_once(info.peers@, pre.connections);
    lemma_each_once(info.swaps@, pre.running_swaps);
    assert(terms_of(info.offers@) =~= crate::offer::offer_views(info.offers@));
    lemma_value_of_each(terms_of(info.offers@), pre.public_offers);
    assert forall|k: PublicKey|
        info.node_ids@.contains(k) <==> exists|o: OfferId| #[trigger]
            pre.node_ids.contains_key(o) && pre.node_ids[o] == k by {
        assert(info.node_ids@.contains(k) <==> pre.node_ids.values().contains(k));
        if pre.node_ids.values().contains(k) {
            let o = choose|o: OfferId| pre.node_ids.contains_key(o) && pre.node_ids[o] == k;
            assert(pre.node_ids.contains_key(o));
        }
        if exists|o: OfferId| #[trigger] pre.node_ids.contains_key(o) && pre.node_ids[o] == k {
            let o = choose|o: OfferId| #[trigger]
                pre.node_ids.contains_key(o) && pre.node_ids[o] == k;
            assert(pre.node_ids.values().contains(pre.node_ids[o]));
        }
    }
}

/// The message that a request of progress holds.
pub open spec fn message_in(request: Request) -> Option<Notice> {
    match request {
        Request::Progress(x) => Some(x),
        Request::Success(Some(x)) => Some(x),
        Request::Failure { code: _, info: x } => Some(x),
        _ => None,
    }
}

/// What a service says of its progress is kept behind what it said before, and of no other service.
pub proof fn law_progress_is_kept(
    pre: State,
    source: ServiceId,
    request: Request,
    now: Moment,
    post: State,
    step: Step,
)
    requires
        request is Progress || request is Success || request is Failure,
        State::handle(pre, ServiceBus::Ctl, source, request, now, post, step),
    ensures
        step is Done,
        post == (State { progress: post.progress, ..pre }),
        post.progress.contains_key(source),
        pre.progress.contains_key(source) ==> post.progress[source]
            == pre.progress[source].push(request),
        !pre.progress.contains_key(source) ==> post.progress[source] == seq![request],
        forall|k: ServiceId|
            k != source ==> (#[trigger] post.progress.contains_key(k)
                <==> pre.progress.contains_key(k)) && (pre.progress.contains_key(k)
                ==> post.progress[k] == pre.progress[k]),
{
    assert(Seq::<Request>::empty().push(request) =~= seq![request]);
}

/// What a swap said of its progress is told in order, as progress but for the last, which is told
/// as a success. A client that asks for a swap that said nothing learns whether it is awaited.
pub proof fn law_progress_is_told(
    pre: State,
    source: ServiceId,
    swap: SwapId,
    now: Moment,
    post: State,
    step: Step,
)
    requires
        State::handle(pre, ServiceBus::Ctl, source, Request::ReadProgress(swap), now, post, step),
        pre.progress.contains_key(ServiceId::Swap(swap)) ==> forall|i: int|
            0 <= i < pre.progress[ServiceId::Swap(swap)].len() ==> message_in(
                #[trigger] pre.progress[ServiceId::Swap(swap)][i],
            ) is Some,
    ensures
        post == pre,
        !pre.progress.contains_key(ServiceId::Swap(swap)) ==> replies(
            step,
            pre.identity,
            source,
            Request::Failure {
                code: 1,
                info: if pre.making_swaps.contains_key(ServiceId::Swap(swap))
                    || pre.taking_swaps.contains_key(ServiceId::Swap(swap)) {
                    Notice::NoProgressYet
                } else {
                    Notice::UnknownSwapd
                },
            },
        ),
        pre.progress.contains_key(ServiceId::Swap(swap)) ==> {
            let queue = pre.progress[ServiceId::Swap(swap)];
            let n = queue.len() as int;
            let told = |i: int|
                if i < n - 1 {
                    Request::Progress(message_in(queue[i])->0)
                } else {
                    Request::Success(message_in(queue[i]))
                };
            &&& n == 0 ==> step is Done
            &&& n > 0 ==> {
                &&& swap_laws::sends(step, ServiceBus::Ctl, pre.identity, source, told(0))
                &&& step->Send_1 matches AfterSend::Reports(rest)
                &&& rest@.len() == n - 1
                &&& forall|i: int|
                    0 <= i < n - 1 ==> #[trigger] rest@[i] == (Report {
                        to: source,
                        request: told(i + 1),
                    })
            }
        },
{
    let k = ServiceId::Swap(swap);
    if pre.progress.contains_key(k) {
        let queue = pre.progress[k];
        assert forall|i: int| 0 <= i < queue.len() implies state::said(queue[i]) == message_in(
            queue[i],
        ) by {
            assert(message_in(queue[i]) is Some);
        }
        if queue.len() > 0 {
            assert(state::said(queue[0]) == message_in(queue[0]));
            let rest = step->Send_1->Reports_0@;
            let all = state::retold(source, queue);
            assert forall|i: int| 0 <= i < queue.len() - 1 implies #[trigger] rest[i] == all[i
                + 1] by {}
        }
    }
}

/// Answers go out one by one, in order; when none is left, or nothing was to come, the request is
/// carried out. An answer that could not be sent ends it.
pub proof fn law_answers_go_out_one_by_one(
    pre: State,
    rest: Vec<Report>,
    result: Result<(), String>,
    post: State,
    step: Step,
)
    ensures
        State::sent(pre, AfterSend::Reports(rest), result, post, step) ==> {
            &&& post == pre
            &&& result matches Err(words) ==> step == Step::Fail(Error::Send(words))
            &&& result is Ok && rest@.len() == 0 ==> step is Done
            &&& result is Ok && rest@.len() > 0 ==> {
                &&& swap_laws::sends(
                    step,
                    ServiceBus::Ctl,
                    pre.identity,
                    rest@[0].to,
                    rest@[0].request,
                )
                &&& step->Send_1 matches AfterSend::Reports(next)
                &&& next@ == rest@.skip(1)
            }
        },
        State::sent(pre, AfterSend::Finish, result, post, step) ==> {
            &&& post == pre
            &&& result is Ok ==> step is Done
            &&& result matches Err(words) ==> step == Step::Fail(Error::Send(words))
        },
{
}

/// What is set for funding on the network of an address. The public test networks of Bitcoin and
/// the stage network of Monero are one kind of network, and the networks that are used locally are
/// another.
pub open spec fn funding_set(config: Config, info: FundingInfo) -> Option<AutoFundingServers> {
    let servers = config.funding_servers;
    match info {
        FundingInfo::Bitcoin { address, .. } => match address.network {
            BitcoinNetwork::Bitcoin => servers.mainnet,
            BitcoinNetwork::Testnet => servers.testnet,
            BitcoinNetwork::Signet => servers.testnet,
            BitcoinNetwork::Regtest => servers.local,
        },
        FundingInfo::Monero { address, .. } => match address.network {
            MoneroNetwork::Mainnet => servers.mainnet,
            MoneroNetwork::Stagenet => servers.testnet,
            MoneroNetwork::Testnet => servers.local,
        },
    }
}

/// The coins that a swap waits for, and whether they were sent, are noted under the swap, for its
/// coin alone.
pub open spec fn noted(pre: State, info: FundingInfo, sent: bool) -> State {
    match info {
        FundingInfo::Bitcoin { swap_id, address, amount } => State {
            funding_btc: pre.funding_btc.insert(swap_id, (address, amount, sent)),
            ..pre
        },
        FundingInfo::Monero { swap_id, address, amount } => State {
            funding_xmr: pre.funding_xmr.insert(swap_id, (address, amount, sent)),
            ..pre
        },
    }
}

/// A swap that waits for coins is funded if and only if that is switched on and wallets are set for
/// the network of its address, and then from the wallet of its coin among those. Else it is noted
/// for clients to fund. What is set for other networks makes no difference. Either way it is
/// counted as waiting for its coin.
pub proof fn law_swap_is_funded_on_its_network(
    pre: State,
    source: ServiceId,
    info: FundingInfo,
    now: Moment,
    post: State,
    step: Step,
)
    requires
        State::handle(pre, ServiceBus::Ctl, source, Request::FundingInfo(info), now, post, step),
        pre.stats.awaiting_funding_btc < u64::MAX,
        pre.stats.awaiting_funding_xmr < u64::MAX,
    ensures
        post.stats == (Stats {
            awaiting_funding_btc: post.stats.awaiting_funding_btc,
            awaiting_funding_xmr: post.stats.awaiting_funding_xmr,
            ..pre.stats
        }),
        post.stats.awaiting_funding_btc == pre.stats.awaiting_funding_btc + (if info is Bitcoin {
            1int
        } else {
            0
        }),
        post.stats.awaiting_funding_xmr == pre.stats.awaiting_funding_xmr + (if info is Monero {
            1int
        } else {
            0
        }),
        step is Fund <==> pre.config.auto_funding && funding_set(pre.config, info) is Some,
        step is Fund ==> {
            let servers = funding_set(pre.config, info)->0;
            &&& post == (State { stats: post.stats, ..pre })
            &&& step == Step::Fund(
                info,
                match info {
                    FundingInfo::Bitcoin { .. } => FundingWallet::Bitcoin {
                        rpc: servers.bitcoin_rpc,
                        cookie_path: servers.bitcoin_cookie_path,
                    },
                    FundingInfo::Monero { .. } => FundingWallet::Monero {
                        rpc: servers.monero_rpc_wallet,
                    },
                },
            )
        },
        !(step is Fund) ==> step is Done && post == noted(
            State { stats: post.stats, ..pre },
            info,
            false,
        ),
{
}

/// Two daemons that agree on whether swaps are funded, and on the wallets for the network of an
/// address, do the same for a swap that waits for coins there, whatever else they are set up with.
pub proof fn law_other_networks_make_no_difference(
    pre: State,
    other: State,
    source: ServiceId,
    info: FundingInfo,
    now: Moment,
    post: State,
    step: Step,
    other_post: State,
    other_step: Step,
)
    requires
        other == (State { config: other.config, ..pre }),
        other.config.auto_funding == pre.config.auto_funding,
        match info {
            FundingInfo::Bitcoin { address, .. } => match address.network {
                BitcoinNetwork::Bitcoin => other.config.funding_servers.mainnet
                    == pre.config.funding_servers.mainnet,
                BitcoinNetwork::Regtest => other.config.funding_servers.local
                    == pre.config.funding_servers.local,
                _ => other.config.funding_servers.testnet == pre.config.funding_servers.testnet,
            },
            FundingInfo::Monero { address, .. } => match address.network {
                MoneroNetwork::Mainnet => other.config.funding_servers.mainnet
                    == pre.config.funding_servers.mainnet,
                MoneroNetwork::Stagenet => other.config.funding_servers.testnet
                    == pre.config.funding_servers.testnet,
                MoneroNetwork::Testnet => other.config.funding_servers.local
                    == pre.config.funding_servers.local,
            },
        },
        State::handle(pre, ServiceBus::Ctl, source, Request::FundingInfo(info), now, post, step),
        State::handle(
            other,
            ServiceBus::Ctl,
            source,
            Request::FundingInfo(info),
            now,
            other_post,
            other_step,
        ),
    ensures
        other_step == step,
        other_post == (State { config: other.config, ..post }),
{
}

/// Coins that were sent, or could not be sent, are noted as that.
pub proof fn law_funding_is_noted(pre: State, info: FundingInfo, sent: bool)
    ensures
        pre.funding_noted(info, sent) == noted(pre, info, sent),
{
}

/// A swap that waited for a coin and got it is counted as funded in place of waiting, and waits no
/// longer for that coin; for the other it still does. Of a swap that did not wait nothing changes,
/// and only the daemon of a swap can say so.
pub proof fn law_funded_swap_waits_no_longer(
    pre: State,
    source: ServiceId,
    coin: Coin,
    now: Moment,
    post: State,
    step: Step,
)
    requires
        State::handle(
            pre,
            ServiceBus::Ctl,
            source,
            Request::FundingCompleted(coin),
            now,
            post,
            step,
        ),
        pre.admits(source, Request::FundingCompleted(coin)),
    ensures
        !(source is Swap) ==> post == pre && step == Step::Fail(Error::NotSwapd),
        source matches ServiceId::Swap(swap) ==> {
            let waits = if coin is Bitcoin {
                pre.funding_btc.contains_key(swap)
            } else {
                pre.funding_xmr.contains_key(swap)
            };
            &&& step is Done
            &&& !waits ==> post == pre
            &&& waits && coin is Bitcoin ==> post == (State {
                funding_btc: pre.funding_btc.remove(swap),
                stats: Stats {
                    awaiting_funding_btc: (pre.stats.awaiting_funding_btc - 1) as u64,
                    funded_btc: (pre.stats.funded_btc + 1) as u64,
                    ..pre.stats
                },
                ..pre
            })
            &&& waits && coin is Monero ==> post == (State {
                funding_xmr: pre.funding_xmr.remove(swap),
                stats: Stats {
                    awaiting_funding_xmr: (pre.stats.awaiting_funding_xmr - 1) as u64,
                    funded_xmr: (pre.stats.funded_xmr + 1) as u64,
                    ..pre.stats
                },
                ..pre
            })
        },
{
}

/// A swap that waited for a coin and was called off waits no longer for that coin, and is counted
/// as called off in place of waiting for Monero. Of a swap that did not wait nothing changes, and
/// only the daemon of a swap can say so.
pub proof fn law_canceled_swap_waits_no_longer(
    pre: State,
    source: ServiceId,
    coin: Coin,
    now: Moment,
    post: State,
    step: Step,
)
    requires
        State::handle(
            pre,
            ServiceBus::Ctl,
            source,
            Request::FundingCanceled(coin),
            now,
            post,
            step,
        ),
        pre.admits(source, Request::FundingCanceled(coin)),
    ensures
        !(source is Swap) ==> post == pre && step == Step::Fail(Error::NotSwapd),
        source matches ServiceId::Swap(swap) ==> {
            let waits = if coin is Bitcoin {
                pre.funding_btc.contains_key(swap)
            } else {
                pre.funding_xmr.contains_key(swap)
            };
            &&& step is Done
            &&& !waits ==> post == pre
            &&& waits ==> post == (State {
                funding_btc: if coin is Bitcoin {
                    pre.funding_btc.remove(swap)
                } else {
                    pre.funding_btc
                },
                funding_xmr: if coin is Monero {
                    pre.funding_xmr.remove(swap)
                } else {
                    pre.funding_xmr
                },
                stats: Stats {
                    awaiting_funding_xmr: (pre.stats.awaiting_funding_xmr - 1) as u64,
                    funding_canceled_xmr: (pre.stats.funding_canceled_xmr + 1) as u64,
                    ..pre.stats
                },
                ..pre
            })
        },
{
}

/// The coins are what a swap is noted to wait for, and they were not sent.
pub open spec fn waits_unsent(s: State, coin: Coin, info: FundingInfo) -> bool {
    match info {
        FundingInfo::Bitcoin { swap_id, address, amount } => coin is Bitcoin
            && s.funding_btc.contains_key(swap_id) && s.funding_btc[swap_id] == (
            address,
            amount,
            false,
        ),
        FundingInfo::Monero { swap_id, address, amount } => coin is Monero
            && s.funding_xmr.contains_key(swap_id) && s.funding_xmr[swap_id] == (
            address,
            amount,
            false,
        ),
    }
}

/// A client that asks which swaps need a coin is to learn of each that waits for it with the coins
/// not sent, with its address and amount, once, and of no other. Swaps whose coins were sent are
/// counted along.
pub proof fn law_client_learns_what_is_to_be_funded(
    pre: State,
    source: ServiceId,
    coin: Coin,
    now: Moment,
    post: State,
    step: Step,
    info: FundingInfo,
)
    requires
        State::handle(pre, ServiceBus::Ctl, source, Request::NeedsFunding(coin), now, post, step),
    ensures
        post == pre,
        step is Describe,
        step->Describe_0@.contains(info) <==> waits_unsent(pre, coin, info),
        step->Describe_0@.no_duplicates(),
        step->Describe_1.dest == source,
        step->Describe_1.total == (if coin is Bitcoin {
            pre.funding_btc.dom().len()
        } else {
            pre.funding_xmr.dom().len()
        }),
{
    let list = step->Describe_0@;
    let all = pre.fundings(coin);
    let part = state::unsent(all);
    let pairs = state::not_sent(list);
    assert(coin is Bitcoin ==> all.dom() =~= pre.funding_btc.dom());
    assert(coin is Monero ==> all.dom() =~= pre.funding_xmr.dom());
    let keys = choose|keys: Seq<SwapId>| #[trigger]
        table::lists(keys, part.dom()) && pairs == table::looked_up(keys, part);
    assert(table::lists_values(pairs, part));
    assert(pairs.len() == list.len());
    assert(keys.len() == list.len());
    assert forall|i: int| 0 <= i < list.len() implies (#[trigger] list[i], false) == part[keys[i]]
        && part.contains_key(keys[i]) by {
        assert(pairs[i] == part[keys[i]]);
        assert(part.dom().contains(keys[i]));
    }
    assert forall|i: int, j: int|
        0 <= i < list.len() && 0 <= j < list.len() && i != j implies list[i] != list[j] by {
        assert(keys[i] != keys[j]);
        assert((list[i], false) == part[keys[i]] && (list[j], false) == part[keys[j]]);
        match coin {
            Coin::Bitcoin => {
                assert(list[i]->Bitcoin_swap_id == keys[i] && list[j]->Bitcoin_swap_id == keys[j]);
            },
            Coin::Monero => {
                assert(list[i]->Monero_swap_id == keys[i] && list[j]->Monero_swap_id == keys[j]);
            },
        }
    }
    if list.contains(info) {
        let i = list.index_of(info);
        assert((list[i], false) == part[keys[i]]);
    }
    if waits_unsent(pre, coin, info) {
        let k = match info {
            FundingInfo::Bitcoin { swap_id, .. } => swap_id,
            FundingInfo::Monero { swap_id, .. } => swap_id,
        };
        assert(all[k] == (info, false));
        assert(part.dom().contains(k));
        let i = keys.index_of(k);
        assert((list[i], false) == part[keys[i]]);
        assert(list[i] == info);
    }
}

/// A client learns the lines as one text. Each line comes behind those before it, and is followed
/// by a newline if it is not the last of all swaps that wait, sent or not.
pub proof fn law_lines_are_told_as_one_text(
    pre: State,
    after: AfterDescribe,
    lines: Seq<Seq<char>>,
    line: Seq<char>,
    post: State,
    step: Step,
    before: State,
    shorter: Step,
)
    requires
        State::described(pre, after, lines.push(line), post, step),
        State::described(pre, after, lines, before, shorter),
    ensures
        post == pre,
        step is Send,
        step->Send_0.request is String,
        replies(step, pre.identity, after.dest, step->Send_0.request),
        shorter->Send_0.request is String,
        step->Send_0.request->String_0@ == shorter->Send_0.request->String_0@ + line + (
        if lines.len() + 1 < after.total {
            "\n"@
        } else {
            Seq::empty()
        }),
        lines.len() == 0 ==> shorter->Send_0.request->String_0@ == Seq::<char>::empty(),
{
    assert(lines.push(line).drop_last() =~= lines);
    let text = state::in_lines(lines, after.total as nat) + line;
    assert(text + Seq::<char>::empty() =~= text);
}

/// On the bus of the peer protocol only greetings and the messages of takers are understood, and
/// nothing is on the bridge. Other requests fail there, and change nothing.
pub proof fn law_other_requests_on_a_bus_fail(
    pre: State,
    bus: ServiceBus,
    source: ServiceId,
    request: Request,
    now: Moment,
    post: State,
    step: Step,
)
    requires
        State::handle(pre, bus, source, request, now, post, step),
        !(bus is Ctl),
        !(bus is Msg && (request matches Request::Protocol(m) && m is TakerCommit)),
    ensures
        post == pre,
        bus is Msg && request is Hello ==> step is Done,
        bus is Bridge || !(request is Hello) ==> (step matches Step::Fail(
            Error::NotSupported(b, kind),
        ) && b == bus && kind == request.kind()),
{
}

/// Requests on the control bus that are not for this daemon are ignored.
pub proof fn law_requests_for_others_are_ignored(
    pre: State,
    source: ServiceId,
    request: Request,
    now: Moment,
    post: State,
    step: Step,
)
    requires
        State::handle(pre, ServiceBus::Ctl, source, request, now, post, step),
        request is Terminate || request is PeerMessage || request is PingPeer || request is Protocol
            || request is BitcoinAddress || request is MoneroAddress || request is MakeSwap
            || request is TakeSwap || request is GetKeys || request is NodeInfo || request is PeerList
            || request is SwapList || request is OfferList || request is ListenList || request is String
            || request is Other,
    ensures
        post == pre,
        step is Done,
{
}

/// How many swaps ended in a way.
pub open spec fn ended_in(stats: Stats, outcome: Outcome) -> u64 {
    match outcome {
        Outcome::Buy => stats.success,
        Outcome::Refund => stats.refund,
        Outcome::Punish => stats.punish,
    }
}

/// A request about the end or the start of a swap, or about coins, can be carried out if and only
/// if the counts that it changes stay within their bounds. Where it changes none, it can.
pub proof fn law_counts_stay_in_bounds(s: State, source: ServiceId, request: Request)
    ensures
        request matches Request::SwapOutcome(outcome) ==> (s.admits(source, request) <==> (source
            is Swap ==> ended_in(s.stats, outcome) < u64::MAX)),
        request matches Request::LaunchSwap(req) ==> (s.admits(source, request) <==> ({
            let offer = req.public_offer@;
            &&& s.public_offers.contains_key(offer.text@)
            &&& req.local_trade_role is Maker ==> s.listens.contains_key(offer.offer.uuid)
                && s.node_ids.contains_key(offer.offer.uuid)
        } ==> s.stats.initialized < u64::MAX)),
        request matches Request::FundingInfo(info) ==> (s.admits(source, request) <==> (if info
            is Bitcoin {
            s.stats.awaiting_funding_btc < u64::MAX
        } else {
            s.stats.awaiting_funding_xmr < u64::MAX
        })),
        request matches Request::FundingCompleted(coin) ==> (s.admits(source, request) <==> (source
            matches ServiceId::Swap(swap) ==> if coin is Bitcoin {
            s.funding_btc.contains_key(swap) ==> s.stats.awaiting_funding_btc > 0
                && s.stats.funded_btc < u64::MAX
        } else {
            s.funding_xmr.contains_key(swap) ==> s.stats.awaiting_funding_xmr > 0
                && s.stats.funded_xmr < u64::MAX
        })),
        request matches Request::FundingCanceled(coin) ==> (s.admits(source, request) <==> (source
            matches ServiceId::Swap(swap) ==> (if coin is Bitcoin {
            s.funding_btc.contains_key(swap)
        } else {
            s.funding_xmr.contains_key(swap)
        }) ==> s.stats.awaiting_funding_xmr > 0 && s.stats.funding_canceled_xmr < u64::MAX)),
{
}

/// An offer can be made with both keys or with none, and with one of them where each offer that is
/// listened for at its address has a node key. Progress can be told of a swap that said something
/// each time. All other requests that change no count can be carried out.
pub proof fn law_other_requests_are_carried_out(s: State, source: ServiceId, request: Request)
    ensures
        request matches Request::MakeOffer(req) ==> (s.admits(source, request) <==> {
            ||| req.peer_secret_key is Some && req.peer_public_key is Some
            ||| req.peer_secret_key is None && req.peer_public_key is None
            ||| {
                &&& exists|offer: OfferId| #[trigger]
                    s.listens.contains_key(offer) && s.listens[offer] == req.bind_addr
                &&& forall|offer: OfferId| #[trigger]
                    s.listens.contains_key(offer) && s.listens[offer] == req.bind_addr
                        ==> s.node_ids.contains_key(offer)
            }
        }),
        request matches Request::ReadProgress(swap) ==> (s.admits(source, request) <==> (
        s.progress.contains_key(ServiceId::Swap(swap)) ==> forall|i: int|
            0 <= i < s.progress[ServiceId::Swap(swap)].len() ==> message_in(
                #[trigger] s.progress[ServiceId::Swap(swap)][i],
            ) is Some)),
        !(request is SwapOutcome || request is LaunchSwap || request is FundingInfo || request
            is FundingCompleted || request is FundingCanceled || request is MakeOffer || request
            is ReadProgress) ==> s.admits(source, request),
{
    if let Request::MakeOffer(req) = request {
        if exists|offer: OfferId| #[trigger]
            s.listens.contains_key(offer) && s.listens[offer] == req.bind_addr {
            let offer = choose|offer: OfferId| #[trigger]
                s.listens.contains_key(offer) && s.listens[offer] == req.bind_addr;
            assert(s.listens.values().contains(s.listens[offer]));
        }
        if s.listens.values().contains(req.bind_addr) {
            let offer = choose|offer: OfferId|
                s.listens.contains_key(offer) && s.listens[offer] == req.bind_addr;
            assert(s.listens.contains_key(offer));
        }
    }
    if let Request::ReadProgress(swap) = request {
        if s.progress.contains_key(ServiceId::Swap(swap)) {
            let queue = s.progress[ServiceId::Swap(swap)];
            assert forall|i: int| 0 <= i < queue.len() implies (message_in(#[trigger] queue[i])
                is Some <==> state::said(queue[i]) is Some) by {}
            if state::all_said(queue) {
                assert forall|i: int| 0 <= i < queue.len() implies message_in(#[trigger] queue[i])
                    is Some by {
                    assert(state::said(queue[i]) is Some);
                }
            }
        }
    }
}

/// The end of a swap can go on if and only if the outcome that is to be counted has room. Whatever
/// else was sent, what comes after it can be carried out.
pub proof fn law_end_of_swap_needs_room(s: State, after: AfterSend)
    ensures
        s.admits_after(after) <==> match after {
            AfterSend::SwapStopped { outcome, .. } => ended_in(s.stats, outcome) < u64::MAX,
            AfterSend::PeerStopped { outcome, .. } => ended_in(s.stats, outcome) < u64::MAX,
            AfterSend::SyncerStopped { outcome, .. } => ended_in(s.stats, outcome) < u64::MAX,
            _ => true,
        },
{
}

/// The wallet is sent a request over the control bus, and that ends it.
pub proof fn law_wallet_is_sent_the_request(d: &Runtime, request: Request, step: Step)
    requires
        call_ensures(Runtime::send_walletd, (d, request), step),
    ensures
        replies(step, d.identity, ServiceId::Wallet, request),
{
    assert(d@.identity == d.identity);
}

/// A swap is known by its daemon while it runs. Another service stands for no swap.
pub proof fn law_running_swap_is_known(d: &Runtime, source: ServiceId, r: Result<SwapId, Error>)
    requires
        call_ensures(Runtime::known_swap_id, (d, source), r),
    ensures
        r is Ok <==> source is Swap && d@.running_swaps.contains(source->Swap_0),
        r matches Ok(swap) ==> source == ServiceId::Swap(swap),
        r is Err ==> r->Err_0 == (if source is Swap {
            Error::UnknownSwapd
        } else {
            Error::NotSwapd
        }),
{
}

/// When the daemon of a swap was launched, it is told with its process, and the swap is awaited in
/// its role with what it was launched with. When it could not be, that is told, and the swap is not
/// awaited.
pub proof fn law_launch_of_a_swap_is_told(
    d: &mut Runtime,
    role: TradeRole,
    init: InitSwap,
    network: Network,
    pid: Result<u32, String>,
    r: Result<String, Error>,
)
    requires
        call_ensures(Runtime::swapd_launched, (d, role, init, network, pid), r),
    ensures
        pid matches Err(words) ==> r == Err::<String, Error>(Error::Launch(words)) && final(d)@
            == old(d)@,
        pid matches Ok(n) ==> {
            let k = ServiceId::Swap(init.swap_id);
            &&& r matches Ok(told)
            &&& told@ == "New instance of "@ + "swapd"@ + " launched with PID "@
                + text::decimal_digits(n as nat)
            &&& role is Maker ==> final(d)@ == (State {
                making_swaps: old(d)@.making_swaps.insert(k, (init@, network)),
                ..old(d)@
            })
            &&& role is Taker ==> final(d)@ == (State {
                taking_swaps: old(d)@.taking_swaps.insert(k, (init@, network)),
                ..old(d)@
            })
        },
{
}

/// Coins that were sent, or could not be sent, are noted as that under their swap.
pub proof fn law_sent_coins_are_noted(d: &mut Runtime, info: FundingInfo, sent: bool)
    requires
        call_ensures(Runtime::funded, (d, info, sent), ()),
    ensures
        final(d)@ == noted(old(d)@, info, sent),
{
}

/// An error of the bus does not end the daemon, which goes by its own name.
pub proof fn law_error_of_the_bus_is_survived(
    d: &mut Runtime,
    err: Error,
    r: Result<(), Error>,
    e: &Runtime,
    id: ServiceId,
)
    requires
        call_ensures(Runtime::handle_err, (d, err), r),
        call_ensures(Runtime::identity, (e,), id),
    ensures
        r is Ok,
        *final(d) == *old(d),
        id == e.identity,
{
    assert(e@.identity == e.identity);
}

/// What is known of the daemon is all of it: what is kept under each key, and in each set.
pub proof fn law_nothing_of_the_daemon_is_left_out(d: Runtime)
    ensures
        d@.identity == d.identity,
        d@.listens == d.listens@,
        d@.started == d.started,
        d@.connections == d.connections@,
        d@.running_swaps == d.running_swaps@,
        d@.spawning_services == d.spawning_services@,
        d@.arb_addrs == d.arb_addrs@,
        d@.acc_addrs == d.acc_addrs@,
        d@.consumed_offers == d.consumed_offers@,
        d@.node_ids == d.node_ids@,
        d@.peerd_ids == d.peerd_ids@,
        d@.wallet_token == d.wallet_token,
        d@.pending_requests == d.pending_requests@,
        d@.syncer_services == d.syncer_services@,
        d@.funding_btc == d.funding_btc@,
        d@.funding_xmr == d.funding_xmr@,
        d@.stats == d.stats,
        d@.config == d.config,
        d@.making_swaps.dom() == d.making_swaps@.dom(),
        d@.taking_swaps.dom() == d.taking_swaps@.dom(),
        d@.public_offers.dom() == d.public_offers@.dom(),
        d@.syncer_clients.dom() == d.syncer_clients@.dom(),
        d@.progress.dom() == d.progress@.dom(),
        forall|k: ServiceId| #[trigger]
            d.making_swaps@.contains_key(k) ==> d@.making_swaps[k] == (
                d.making_swaps@[k].0@,
                d.making_swaps@[k].1,
            ),
        forall|k: ServiceId| #[trigger]
            d.taking_swaps@.contains_key(k) ==> d@.taking_swaps[k] == (
                d.taking_swaps@[k].0@,
                d.taking_swaps@[k].1,
            ),
        forall|t: Seq<char>| #[trigger]
            d.public_offers@.contains_key(t) ==> d@.public_offers[t] == d.public_offers@[t]@,
        forall|c: Chain| #[trigger]
            d.syncer_clients@.contains_key(c) ==> d@.syncer_clients[c] == d.syncer_clients@[c]@,
        forall|k: ServiceId| #[trigger]
            d.progress@.contains_key(k) ==> d@.progress[k] == d.progress@[k]@,
{
}

/// The kind of a request is the one that it is named after.
pub proof fn law_kinds_are_named_after_requests(r: Request)
    ensures
        r is Hello <==> r.kind() is Hello,
        r is Terminate <==> r.kind() is Terminate,
        r is PeerMessage <==> r.kind() is PeerMessage,
        r is PingPeer <==> r.kind() is PingPeer,
        r is Protocol <==> r.kind() is Protocol,
        r is BitcoinAddress <==> r.kind() is BitcoinAddress,
        r is MoneroAddress <==> r.kind() is MoneroAddress,
        r is LaunchSwap <==> r.kind() is LaunchSwap,
        r is MakeSwap <==> r.kind() is MakeSwap,
        r is TakeSwap <==> r.kind() is TakeSwap,
        r is SwapOutcome <==> r.kind() is SwapOutcome,
        r is GetKeys <==> r.kind() is GetKeys,
        r is Keys <==> r.kind() is Keys,
        r is GetInfo <==> r.kind() is GetInfo,
        r is NodeInfo <==> r.kind() is NodeInfo,
        r is ListPeers <==> r.kind() is ListPeers,
        r is PeerList <==> r.kind() is PeerList,
        r is ListSwaps <==> r.kind() is ListSwaps,
        r is SwapList <==> r.kind() is SwapList,
        r is ListOffers <==> r.kind() is ListOffers,
        r is OfferList <==> r.kind() is OfferList,
        r is ListListens <==> r.kind() is ListListens,
        r is ListenList <==> r.kind() is ListenList,
        r is MakeOffer <==> r.kind() is MakeOffer,
        r is TakeOffer <==> r.kind() is TakeOffer,
        r is Progress <==> r.kind() is Progress,
        r is Success <==> r.kind() is Success,
        r is Failure <==> r.kind() is Failure,
        r is ReadProgress <==> r.kind() is ReadProgress,
        r is FundingInfo <==> r.kind() is FundingInfo,
        r is FundingCompleted <==> r.kind() is FundingCompleted,
        r is FundingCanceled <==> r.kind() is FundingCanceled,
        r is NeedsFunding <==> r.kind() is NeedsFunding,
        r is String <==> r.kind() is String,
        r is Other <==> r.kind() is Other,
{
}

} // verus!
