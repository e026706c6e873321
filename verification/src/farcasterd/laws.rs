//! What holds of the daemon over more than one decision.

use crate::addr::RemoteSocketAddr;
use crate::chain::{self, Chain, Coin, MoneroAddress, Network};
use crate::clock::Moment;
use crate::config::Config;
use crate::farcasterd::state::{self, State};
use crate::farcasterd::step::{
    AfterDescribe, AfterLaunch, AfterSend, AfterWatch, Making, Report, Start, Step, Watched,
};
use crate::ident::{OfferId, PublicKey, RequestId, SecretKey, SwapId};
use crate::offer::{PublicTerms, TradeRole};
use crate::rpc::{
    self, Error, FundingInfo, LaunchSwap, Msg, Notice, Outcome, ProtoPublicOffer,
    PubOffer, Request, SwapStart, TakeCommit,
};
use crate::service::{ServiceBus, ServiceId};
use crate::table;
use vstd::prelude::*;

verus! {

/// Each swap that is awaited is awaited from its own daemon.
pub open spec fn awaited_from_itself(m: Map<ServiceId, (SwapStart, Network)>) -> bool {
    forall|k: ServiceId| #[trigger] m.contains_key(k) ==> k == ServiceId::Swap(m[k].0.swap_id)
}

/// A request that can wait for keys.
pub open spec fn takes_keys(request: Request) -> bool {
    request is MakeOffer || request is TakeOffer
}

/// A request that says something of progress, or that something succeeded.
pub open spec fn is_progress(request: Request) -> bool {
    request is Progress || request is Success || request is Failure
}

impl State {
    /// What holds in every state that the daemon comes to:
    ///
    /// - a swap that is awaited is awaited from its own daemon;
    /// - an offer is listened for if and only if it has a node key, and offers that are listened
    ///   for at the same address have the same node key;
    /// - a public offer is found under its own text, which is that of its terms and its node;
    /// - only requests that keys can be put into wait for keys;
    /// - a syncer is registered under its own chain;
    /// - what is kept of a service's progress is not empty and says something of progress.
    pub open spec fn wf(self) -> bool {
        &&& awaited_from_itself(self.making_swaps)
        &&& awaited_from_itself(self.taking_swaps)
        &&& self.listens.dom() == self.node_ids.dom()
        &&& forall|a: OfferId, b: OfferId| #[trigger]
            self.listens.contains_key(a) && #[trigger] self.listens.contains_key(b)
                && self.listens[a] == self.listens[b] ==> self.node_ids[a] == self.node_ids[b]
        &&& forall|t: Seq<char>| #[trigger]
            self.public_offers.contains_key(t) ==> self.public_offers[t].text@ == t
                && self.public_offers[t].agree()
        &&& forall|id: RequestId| #[trigger]
            self.pending_requests.contains_key(id) ==> takes_keys(self.pending_requests[id].0)
        &&& forall|c: Chain| #[trigger]
            self.syncer_services.contains_key(c) ==> self.syncer_services[c] == ServiceId::Syncer(c)
        &&& forall|k: ServiceId| #[trigger]
            self.progress.contains_key(k) ==> self.progress[k].len() > 0 && forall|i: int|
                0 <= i < self.progress[k].len() ==> is_progress(#[trigger] self.progress[k][i])
    }
}

/// The daemon starts in a state that is well-formed.
pub proof fn law_starts_well_formed(config: Config, wallet_token: String, started: Moment)
    ensures
        State::initial(config, wallet_token, started).wf(),
{
    let s = State::initial(config, wallet_token, started);
    assert(s.listens.dom() =~= s.node_ids.dom());
}

proof fn lemma_listener_added(pre: State, offer: OfferId, addr: RemoteSocketAddr, key: PublicKey)
    requires
        pre.wf(),
        forall|o: OfferId| #[trigger]
            pre.listens.contains_key(o) && pre.listens[o] == addr ==> pre.node_ids[o] == key,
    ensures
        pre.listener_added(offer, addr, key).wf(),
{
    let s = pre.listener_added(offer, addr, key);
    assert(s.listens.dom() =~= s.node_ids.dom());
}

proof fn lemma_make_offer(
    pre: State,
    source: ServiceId,
    req: ProtoPublicOffer,
    post: State,
    step: Step,
)
    requires
        pre.wf(),
        State::make_offer(pre, source, req, post, step),
    ensures
        post.wf(),
{
    let key = choose|key: Option<PublicKey>| #[trigger]
        pre.bound(req.bind_addr, key) && match key {
            Some(key) => State::register_offer(
                pre.listener_added(req.offer@.uuid, req.bind_addr, key),
                state::making(source, req, key),
                Notice::AlreadyListening(req.bind_addr),
                post,
                step,
            ),
            None => match (req.peer_secret_key, req.peer_public_key) {
                (Some(sk), Some(pk)) => {
                    &&& post == pre.listener_added(req.offer@.uuid, req.bind_addr, pk)
                    &&& State::listen(pre, req.bind_addr, sk, state::making(source, req, pk), step)
                },
                _ => State::get_secret(pre, source, Request::MakeOffer(req), post, step),
            },
        };
    match key {
        Some(k) => {
            lemma_listener_added(pre, req.offer@.uuid, req.bind_addr, k);
        },
        None => {
            match (req.peer_secret_key, req.peer_public_key) {
                (Some(sk), Some(pk)) => {
                    assert forall|o: OfferId| #[trigger]
                        pre.listens.contains_key(o) && pre.listens[o]
                            == req.bind_addr implies pre.node_ids[o] == pk by {
                        assert(pre.listens.values().contains(pre.listens[o]));
                        let b = choose|b: OfferId| #[trigger]
                            pre.listens.contains_key(b) && pre.listens[b] == req.bind_addr && key
                                == (if pre.node_ids.contains_key(b) {
                                Some(pre.node_ids[b])
                            } else {
                                None
                            });
                        assert(pre.listens.dom().contains(b));
                        assert(pre.node_ids.dom().contains(b));
                    }
                    lemma_listener_added(pre, req.offer@.uuid, req.bind_addr, pk);
                },
                _ => {},
            }
        },
    }
}

/// Every request that the daemon handles leaves it well-formed.
#[verifier::rlimit(40)]
pub proof fn law_handle_keeps_well_formed(
    pre: State,
    bus: ServiceBus,
    source: ServiceId,
    request: Request,
    now: Moment,
    post: State,
    step: Step,
)
    requires
        pre.wf(),
        State::handle(pre, bus, source, request, now, post, step),
    ensures
        post.wf(),
{
    if bus == ServiceBus::Ctl {
        match request {
            Request::Hello => {
                lemma_hello(pre, source, post, step);
            },
            Request::SwapOutcome(outcome) => {
                if let ServiceId::Swap(swap) = source {
                    lemma_clean_up(pre, swap, outcome, post, step);
                }
            },
            Request::MakeOffer(req) => {
                lemma_make_offer(pre, source, req, post, step);
            },
            Request::Keys { secret_key, public_key, id } => {
                if pre.pending_requests.contains_key(id) {
                    let (r, to) = pre.pending_requests[id];
                    let s = State { pending_requests: pre.pending_requests.remove(id), ..pre };
                    match r {
                        Request::MakeOffer(req) => {
                            lemma_make_offer(
                                s,
                                to,
                                ProtoPublicOffer {
                                    peer_secret_key: Some(secret_key),
                                    peer_public_key: Some(public_key),
                                    ..req
                                },
                                post,
                                step,
                            );
                        },
                        _ => {},
                    }
                }
            },
            _ => {},
        }
    }
}

proof fn lemma_hello(pre: State, source: ServiceId, post: State, step: Step)
    requires
        pre.wf(),
        State::hello(pre, source, post, step),
    ensures
        post.wf(),
{
    let s = pre.greeted(source);
    assert(s.wf());
    reveal_with_fuel(State::syncers_up, 3);
}

proof fn lemma_clean_up(pre: State, swap: SwapId, outcome: Outcome, post: State, step: Step)
    requires
        pre.wf(),
        State::clean_up_after_swap(pre, swap, outcome, post, step),
    ensures
        post.wf(),
{
    if !pre.running_swaps.contains(swap) {
        lemma_release_offer(pre, swap, outcome, post, step);
    }
}

proof fn lemma_release_offer(pre: State, swap: SwapId, outcome: Outcome, post: State, step: Step)
    requires
        pre.wf(),
        State::release_offer(pre, swap, outcome, post, step),
    ensures
        post.wf(),
{
    let s = pre.offers_released(swap);
    assert(s.wf());
    if exists|offer: OfferId| #[trigger]
        pre.consumed_offers.contains_key(offer) && pre.consumed_offers[offer] == swap {
        let offer = choose|offer: OfferId| #[trigger]
            pre.consumed_offers.contains_key(offer) && pre.consumed_offers[offer] == swap
                && State::release_listener(s, offer, swap, outcome, post, step);
        let t = s.listener_released(offer);
        assert(t.listens.dom() =~= t.node_ids.dom());
        assert(t.wf());
    }
}

/// What comes after a request was sent leaves the daemon well-formed.
pub proof fn law_sent_keeps_well_formed(
    pre: State,
    after: AfterSend,
    result: Result<(), String>,
    post: State,
    step: Step,
)
    requires
        pre.wf(),
        State::sent(pre, after, result, post, step),
    ensures
        post.wf(),
{
    match after {
        AfterSend::SwapStopped { swap, outcome } => {
            if result is Ok {
                lemma_release_offer(pre, swap, outcome, post, step);
            }
        },
        _ => {},
    }
}

/// What comes after a daemon was launched leaves the daemon well-formed.
pub proof fn law_launched_keeps_well_formed(
    pre: State,
    after: AfterLaunch,
    pid: Result<u32, String>,
    post: State,
    step: Step,
)
    requires
        pre.wf(),
        State::launched(pre, after, pid, post, step),
    ensures
        post.wf(),
{
    reveal_with_fuel(State::syncers_up, 3);
}

/// What comes after a peer daemon was launched and watched leaves the daemon well-formed.
pub proof fn law_watched_keeps_well_formed(
    pre: State,
    after: AfterWatch,
    result: Watched,
    post: State,
    step: Step,
)
    requires
        pre.wf(),
        State::watched(pre, after, result, post, step),
    ensures
        post.wf(),
{
}

/// What comes after coins were sent leaves the daemon well-formed.
pub proof fn law_funded_keeps_well_formed(pre: State, info: FundingInfo, ok: bool)
    requires
        pre.wf(),
    ensures
        pre.funding_noted(info, ok).wf(),
{
}

/// In a well-formed state the daemon of an awaited swap is never taken for something else, and a
/// request that waited for keys always has a place for them.
pub proof fn law_well_formed_rules_out_mix_ups(
    pre: State,
    source: ServiceId,
    request: Request,
    now: Moment,
    post: State,
    step: Step,
)
    requires
        pre.wf(),
        State::handle_rpc_ctl(pre, source, request, now, post, step),
    ensures
        request is Hello ==> step != Step::Fail(Error::NotSwapd),
        step != Step::Fail(Error::UnexpectedPending),
{
    reveal_with_fuel(State::syncers_up, 3);
}

/// The daemon's name, its token for the wallet, its configuration and the moment it started at
/// never change.
pub open spec fn same_daemon(a: State, b: State) -> bool {
    &&& a.identity == b.identity
    &&& a.wallet_token == b.wallet_token
    &&& a.config == b.config
    &&& a.started == b.started
}

/// No request changes what the daemon was started with.
pub proof fn law_handle_keeps_daemon(
    pre: State,
    bus: ServiceBus,
    source: ServiceId,
    request: Request,
    now: Moment,
    post: State,
    step: Step,
)
    requires
        State::handle(pre, bus, source, request, now, post, step),
    ensures
        same_daemon(pre, post),
{
    reveal_with_fuel(State::syncers_up, 3);
}

/// Nothing that comes after a step changes what the daemon was started with.
pub proof fn law_steps_keep_daemon(pre: State, post: State, step: Step)
    ensures
        forall|after: AfterSend, result: Result<(), String>| #[trigger]
            State::sent(pre, after, result, post, step) ==> same_daemon(pre, post),
        forall|after: AfterLaunch, pid: Result<u32, String>| #[trigger]
            State::launched(pre, after, pid, post, step) ==> same_daemon(pre, post),
        forall|after: AfterWatch, result: Watched| #[trigger]
            State::watched(pre, after, result, post, step) ==> same_daemon(pre, post),
        forall|after: AfterDescribe, lines: Seq<Seq<char>>| #[trigger]
            State::described(pre, after, lines, post, step) ==> post == pre,
        forall|info: FundingInfo, ok: bool|
            same_daemon(pre, #[trigger] pre.funding_noted(info, ok)),
{
    reveal_with_fuel(State::syncers_up, 3);
}

/// A request that only asks something.
pub open spec fn is_question(request: Request) -> bool {
    request is GetInfo || request is ListPeers || request is ListSwaps || request is ListOffers
        || request is ListListens || request is ReadProgress || request is NeedsFunding
}

/// A question leaves the state as it is.
pub proof fn law_questions_change_nothing(
    pre: State,
    source: ServiceId,
    request: Request,
    now: Moment,
    post: State,
    step: Step,
)
    requires
        is_question(request),
        State::handle_rpc_ctl(pre, source, request, now, post, step),
    ensures
        post == pre,
{
}

/// The answer to a taker whose offer is known already.
pub open spec fn refuses_take(pre: State, source: ServiceId, offer: PublicTerms, step: Step) -> bool {
    state::reporting(
        pre.identity,
        seq![
            Report {
                to: source,
                request: Request::Failure { code: 1, info: Notice::OfferTaken(offer.text) },
            },
        ],
        step,
    )
}

/// An offer that was taken is not taken again: a second request for it changes nothing, and
/// whoever sent it is told.
pub proof fn law_offer_is_taken_once(
    pre: State,
    source: ServiceId,
    req: PubOffer,
    connected: Notice,
    mid: State,
    step: Step,
    other: ServiceId,
    again: PubOffer,
    post: State,
    end: Step,
)
    requires
        State::forward_take(pre, source, req, connected, mid, step),
        again.public_offer@.text@ == req.public_offer@.text@,
        State::take_offer(mid, other, again, post, end),
    ensures
        post == mid,
        refuses_take(mid, other, again.public_offer@, end),
{
}

/// An offer that a swap was launched for is not taken, not committed to and not launched again:
/// a request to take it is refused, a taker's commitment to it is ignored, and another launch
/// fails. None of them changes anything.
pub proof fn law_launched_offer_is_gone(
    pre: State,
    req: LaunchSwap,
    mid: State,
    step: Step,
    source: ServiceId,
    take: PubOffer,
    commit: TakeCommit,
    again: LaunchSwap,
    post: State,
    end: Step,
)
    requires
        State::launch_swap(pre, req, mid, step),
        step is Launch,
    ensures
        take.public_offer@.uuid() == req.public_offer@.uuid() && State::take_offer(
            mid,
            source,
            take,
            post,
            end,
        ) ==> post == mid && refuses_take(mid, source, take.public_offer@, end),
        crate::offer::offer_named(commit.public_offer@) == Ok::<Seq<char>, Option<Seq<char>>>(
            req.public_offer@.text@,
        )
            && State::taker_commit(mid, source, commit, post, end) ==> post == mid && end is Done,
        again.public_offer@.text@ == req.public_offer@.text@ && State::launch_swap(
            mid,
            again,
            post,
            end,
        ) ==> post == mid && (end is Done || end == Step::Fail(Error::UnknownOffer)),
{
}

/// A swap gets what it was launched with. When the swap's daemon says hello, and syncers follow
/// both chains, the daemon is told to make or to take the swap with the parameters, the
/// commitment and the address of the launch; the swap then runs and is awaited no longer.
pub proof fn law_swap_starts_as_launched(
    pre: State,
    req: LaunchSwap,
    s1: State,
    step: Step,
    pid: u32,
    s2: State,
    launched: Step,
    s3: State,
    hello: Step,
    s4: State,
    end: Step,
)
    requires
        State::launch_swap(pre, req, s1, step),
        step is Launch,
        State::launched(s1, step->Launch_1, Ok(pid), s2, launched),
        req.local_trade_role is Taker ==> !pre.making_swaps.contains_key(
            ServiceId::Swap(req.swap_id),
        ),
        State::hello(s2, ServiceId::Swap(req.swap_id), s3, hello),
        !pre.lacks_syncer(Chain { coin: Coin::Bitcoin, network: req.public_offer@.offer.network }),
        !pre.lacks_syncer(Chain { coin: Coin::Monero, network: req.public_offer@.offer.network }),
        State::sent(s3, hello->Send_1, Ok(()), s4, end),
    ensures
        hello is Send,
        hello->Send_0.dest == ServiceId::Swap(req.swap_id),
        match req.local_trade_role {
            TradeRole::Maker => state::sent_request(hello) is MakeSwap && is_start_of(
                state::sent_request(hello)->MakeSwap_0@,
                req,
            ),
            TradeRole::Taker => state::sent_request(hello) is TakeSwap && is_start_of(
                state::sent_request(hello)->TakeSwap_0@,
                req,
            ),
        },
        s4.running_swaps.contains(req.swap_id),
        match req.local_trade_role {
            TradeRole::Maker => !s4.making_swaps.contains_key(ServiceId::Swap(req.swap_id)),
            TradeRole::Taker => !s4.taking_swaps.contains_key(ServiceId::Swap(req.swap_id)),
        },
        s4.consumed_offers.contains_key(req.public_offer@.uuid()),
        s4.consumed_offers[req.public_offer@.uuid()] == req.swap_id,
{
    reveal_with_fuel(State::syncers_up, 3);
}

/// A swap is started with what it was launched with.
pub open spec fn is_start_of(init: SwapStart, req: LaunchSwap) -> bool {
    &&& init.local_params == req.local_params@
    &&& init.swap_id == req.swap_id
    &&& init.remote_commit == rpc::parcel_of(req.remote_commit)
    &&& init.funding_address == req.funding_address
}

/// A swap is being started: a syncer is launched for it, of at most `left` that may be, or its
/// daemon is told to start with what it is awaited with, or the configuration lacks servers.
pub open spec fn starts(step: Step, start: Start, identity: ServiceId, left: int) -> bool {
    match step {
        Step::Launch(_, AfterLaunch::Syncer { chain, start: s }) => {
            &&& s@ == start
            &&& chain.network == start.network
            &&& left >= (if chain.coin is Bitcoin {
                2int
            } else {
                1
            })
        },
        Step::Send(e, after) => {
            &&& e.source == identity
            &&& e.dest == start.source
            &&& match start.role {
                TradeRole::Maker => e.request matches Request::MakeSwap(init) && init@
                    == start.init,
                TradeRole::Taker => e.request matches Request::TakeSwap(init) && init@
                    == start.init,
            }
            &&& after is SwapStarted
        },
        Step::Fail(e) => e == Error::InvalidConfig,
        _ => false,
    }
}

/// The hello of a swap that is awaited sets its start going.
pub proof fn law_hello_starts_the_swap(
    pre: State,
    swap: SwapId,
    role: TradeRole,
    init: SwapStart,
    network: Network,
    post: State,
    step: Step,
)
    requires
        pre.greeted(ServiceId::Swap(swap)).awaited_swap(ServiceId::Swap(swap)) == Some(
            (role, init, network),
        ),
        State::hello(pre, ServiceId::Swap(swap), post, step),
    ensures
        starts(
            step,
            Start { role, source: ServiceId::Swap(swap), swap, init, network },
            pre.identity,
            2,
        ),
{
    reveal_with_fuel(State::syncers_up, 3);
}

/// Each syncer that is launched brings the start of the swap on, so that after two of them at the
/// latest the swap's daemon is told to start, unless the configuration lacks servers.
pub proof fn law_launched_syncer_brings_the_start_on(
    pre: State,
    step: Step,
    start: Start,
    left: int,
    pid: u32,
    post: State,
    next: Step,
)
    requires
        starts(step, start, pre.identity, left),
        step is Launch,
        State::launched(pre, step->Launch_1, Ok(pid), post, next),
    ensures
        starts(next, start, pre.identity, left - 1),
        left == 1 ==> next is Send,
{
    reveal_with_fuel(State::syncers_up, 3);
}

/// A syncer is launched for a chain at most once: after it was launched, and after it said hello,
/// the chain does not lack one.
pub proof fn law_one_syncer_for_a_chain(
    pre: State,
    chain: Chain,
    swap: SwapId,
    post: State,
    step: Step,
)
    ensures
        ({
            let s = pre.syncer_launched(chain).syncer_joined(chain, swap);
            &&& !s.lacks_syncer(chain)
            &&& s.syncer_clients[chain] == set![swap]
            &&& State::hello(s, ServiceId::Syncer(chain), post, step)
                && !s.making_swaps.contains_key(ServiceId::Syncer(chain))
                && !s.taking_swaps.contains_key(ServiceId::Syncer(chain))
                ==> !post.lacks_syncer(chain) && post.syncer_services.contains_key(chain)
        }),
{
    let s = pre.syncer_launched(chain).syncer_joined(chain, swap);
    assert(s.syncer_clients[chain] =~= set![swap]);
}

/// A peer that said hello is connected: an offer of its is taken without another peer daemon.
pub proof fn law_greeted_peer_is_connected(
    pre: State,
    req: PubOffer,
    mid: State,
    step: Step,
    source: ServiceId,
    post: State,
    end: Step,
)
    requires
        State::hello(pre, ServiceId::Peer(state::maker_of(req.public_offer@)), mid, step),
        pre.wf(),
        !mid.knows_offer(req.public_offer@),
        State::take_offer(mid, source, req, post, end),
    ensures
        end is Send,
        end->Send_0.dest == ServiceId::Wallet,
        post.public_offers.contains_key(req.public_offer@.text@),
{
}

/// The request holds no secret key.
pub open spec fn holds_no_secret(request: Request) -> bool {
    &&& request matches Request::TakeOffer(take) ==> take.peer_secret_key is None
    &&& !(request is MakeOffer)
    &&& !(request is Keys)
}

/// None of the answers that are still to be sent holds a secret key.
pub open spec fn reports_no_secret(after: AfterSend) -> bool {
    after matches AfterSend::Reports(rest) ==> forall|i: int|
        0 <= i < rest@.len() ==> holds_no_secret((#[trigger] rest@[i]).request)
}

/// A secret key does not leave the daemon over a bus: neither the request that is sent nor an
/// answer that is to be sent after it holds one.
pub open spec fn keeps_secret(step: Step) -> bool {
    step matches Step::Send(e, after) ==> holds_no_secret(e.request) && reports_no_secret(after)
}

/// No request makes the daemon send a secret key over a bus.
pub proof fn law_secret_keys_stay(
    pre: State,
    bus: ServiceBus,
    source: ServiceId,
    request: Request,
    now: Moment,
    post: State,
    step: Step,
)
    requires
        State::handle(pre, bus, source, request, now, post, step),
    ensures
        keeps_secret(step),
{
    reveal_with_fuel(State::syncers_up, 3);
}

/// Neither does a daemon that was launched, nor a list that was put into words.
pub proof fn law_secret_keys_stay_after_launch(pre: State, post: State, step: Step)
    ensures
        forall|after: AfterWatch, result: Watched| #[trigger]
            State::watched(pre, after, result, post, step) ==> keeps_secret(step),
        forall|after: AfterLaunch, pid: Result<u32, String>| #[trigger]
            State::launched(pre, after, pid, post, step) ==> keeps_secret(step),
        forall|after: AfterDescribe, lines: Seq<Seq<char>>| #[trigger]
            State::described(pre, after, lines, post, step) ==> keeps_secret(step),
{
    reveal_with_fuel(State::syncers_up, 3);
}

/// No secret key is sent later either: whatever comes after a request that was sent without one
/// is sent without one, however many requests are sent and however that goes.
pub proof fn law_secret_keys_stay_after_sends(
    pre: State,
    step: Step,
    results: Seq<Result<(), String>>,
    post: State,
    end: Step,
)
    requires
        keeps_secret(step),
        follows(pre, step, results, post, end),
    ensures
        keeps_secret(end),
    decreases results.len(),
{
    if results.len() > 0 {
        let (mid, next) = choose|mid: State, next: Step| #[trigger]
            State::sent(pre, step->Send_1, results[0], mid, next) && follows(
                mid,
                next,
                results.skip(1),
                post,
                end,
            );
        assert(keeps_secret(next));
        law_secret_keys_stay_after_sends(mid, next, results.skip(1), post, end);
    }
}

/// Keys are used once: the request that waited for them is carried out, and keys that come again
/// under the same identifier are ignored.
pub proof fn law_keys_are_used_once(
    pre: State,
    secret_key: SecretKey,
    public_key: PublicKey,
    id: RequestId,
    mid: State,
    step: Step,
    other_secret: SecretKey,
    other_public: PublicKey,
    post: State,
    end: Step,
)
    requires
        State::keys(pre, secret_key, public_key, id, mid, step),
        State::keys(mid, other_secret, other_public, id, post, end),
    ensures
        post == mid,
        end is Done,
{
}

/// A request that waits for keys is carried out with them when they come: an offer to be taken is
/// then connected to with the secret key that was given.
pub proof fn law_pending_take_goes_on(
    pre: State,
    source: ServiceId,
    req: PubOffer,
    id: RequestId,
    mid: State,
    step: Step,
    secret_key: SecretKey,
    public_key: PublicKey,
    post: State,
    end: Step,
)
    requires
        State::await_keys(pre, id, source, Request::TakeOffer(req), mid, step),
        !pre.knows_offer(req.public_offer@),
        !pre.connections.contains(state::maker_of(req.public_offer@)),
        State::keys(mid, secret_key, public_key, id, post, end),
    ensures
        end is Watch,
        end->Watch_1 == (AfterWatch {
            source,
            peer: state::maker_of(req.public_offer@),
            take: PubOffer { peer_secret_key: Some(secret_key), ..req },
        }),
        post.pending_requests == pre.pending_requests.remove(id),
{
    assert(mid.pending_requests.remove(id) =~= pre.pending_requests.remove(id));
}

/// A request that waits for keys is carried out with them when they come: an offer to be made at
/// an address that is not listened at is then listened for with the keys that were given.
pub proof fn law_pending_make_goes_on(
    pre: State,
    source: ServiceId,
    req: ProtoPublicOffer,
    id: RequestId,
    mid: State,
    step: Step,
    secret_key: SecretKey,
    public_key: PublicKey,
    post: State,
    end: Step,
)
    requires
        State::await_keys(pre, id, source, Request::MakeOffer(req), mid, step),
        !pre.listens.values().contains(req.bind_addr),
        State::keys(mid, secret_key, public_key, id, post, end),
    ensures
        post.pending_requests == pre.pending_requests.remove(id),
        post.listens == pre.listens.insert(req.offer@.uuid, req.bind_addr),
        post.node_ids == pre.node_ids.insert(req.offer@.uuid, public_key),
        end matches Step::Launch(_, after) ==> after == AfterLaunch::Listener(
            state::making(source, req, public_key),
        ),
        end is Launch || end == Step::Fail(Error::OnlyTcp) || end == Step::Fail(
            Error::NoSocketAddr,
        ),
{
    assert(mid.pending_requests.remove(id) =~= pre.pending_requests.remove(id));
}

/// What is told over of a swap's progress grows at its end: what came before is told as progress,
/// in the order in which it came, and what came last as a success.
pub proof fn law_progress_is_told_in_order(
    pre: State,
    swap: SwapId,
    request: Request,
    client: ServiceId,
    post: State,
    step: Step,
)
    requires
        state::said(request) is Some,
        State::read_progress(
            pre.progressed(ServiceId::Swap(swap), request),
            client,
            swap,
            post,
            step,
        ),
    ensures
        state::reporting(
            pre.identity,
            (if pre.progress.contains_key(ServiceId::Swap(swap)) {
                told(client, pre.progress[ServiceId::Swap(swap)])
            } else {
                Seq::empty()
            }).push(
                Report { to: client, request: Request::Success(state::said(request)) },
            ),
            step,
        ),
{
    let k = ServiceId::Swap(swap);
    let before = if pre.progress.contains_key(k) {
        pre.progress[k]
    } else {
        Seq::empty()
    };
    assert(told(client, Seq::<Request>::empty()) =~= Seq::<Report>::empty());
    assert(state::retold(client, before.push(request)) =~= told(client, before).push(
        Report { to: client, request: Request::Success(state::said(request)) },
    ));
}

/// All that was said, told as progress.
pub open spec fn told(to: ServiceId, queue: Seq<Request>) -> Seq<Report> {
    Seq::new(
        queue.len(),
        |i: int| Report { to, request: Request::Progress(state::said(queue[i])->0) },
    )
}

/// From a state and a step, sends that went as listed lead to another state and step.
pub open spec fn follows(
    pre: State,
    step: Step,
    results: Seq<Result<(), String>>,
    post: State,
    end: Step,
) -> bool
    decreases results.len(),
{
    if results.len() == 0 {
        post == pre && end == step
    } else {
        step is Send && exists|mid: State, next: Step| #[trigger]
            State::sent(pre, step->Send_1, results[0], mid, next) && follows(
                mid,
                next,
                results.skip(1),
                post,
                end,
            )
    }
}

/// No offer is consumed by the swap.
pub open spec fn offers_free(s: State, swap: SwapId) -> bool {
    forall|offer: OfferId| #[trigger]
        s.consumed_offers.contains_key(offer) ==> s.consumed_offers[offer] != swap
}

/// The swap is no client of any syncer.
pub open spec fn syncers_free(s: State, swap: SwapId) -> bool {
    forall|chain: Chain| #[trigger]
        s.syncer_clients.contains_key(chain) ==> !s.syncer_clients[chain].contains(swap)
}

/// Nothing is left of the swap: it does not run, no offer is consumed by it, it is no client of
/// any syncer, and a syncer that is registered has a list of clients.
pub open spec fn cleaned(s: State, swap: SwapId) -> bool {
    &&& !s.running_swaps.contains(swap)
    &&& offers_free(s, swap)
    &&& syncers_free(s, swap)
    &&& forall|chain: Chain| #[trigger]
        s.syncer_services.contains_key(chain) ==> s.syncer_clients.contains_key(chain)
}

/// What a clean-up leaves alone.
pub open spec fn same_but_for_swap(a: State, b: State, swap: SwapId) -> bool {
    &&& b.running_swaps == a.running_swaps.remove(swap)
    &&& b.consumed_offers == table::kept(a.consumed_offers, |s: SwapId| s != swap)
    &&& b.public_offers == a.public_offers
    &&& b.arb_addrs == a.arb_addrs
    &&& b.acc_addrs == a.acc_addrs
    &&& b.spawning_services == a.spawning_services
    &&& b.making_swaps == a.making_swaps
    &&& b.taking_swaps == a.taking_swaps
    &&& b.pending_requests == a.pending_requests
    &&& b.progress == a.progress
    &&& b.funding_btc == a.funding_btc
    &&& b.funding_xmr == a.funding_xmr
    &&& b.listens.submap_of(a.listens)
    &&& b.node_ids.submap_of(a.node_ids)
    &&& b.peerd_ids.submap_of(a.peerd_ids)
    &&& b.connections.subset_of(a.connections)
    &&& same_daemon(a, b)
}

/// The clients of the syncers once the swap has left them.
pub open spec fn clients_left(start: State, swap: SwapId) -> Map<Chain, Set<SwapId>> {
    start.syncers_left(swap).syncer_clients
}

/// Syncers without clients may be gone, and no others are.
pub open spec fn only_idle_gone(left: Map<Chain, Set<SwapId>>, now: Map<Chain, Set<SwapId>>) -> bool {
    &&& forall|c: Chain| #[trigger]
        now.contains_key(c) ==> left.contains_key(c) && left[c] == now[c]
    &&& forall|c: Chain| #[trigger]
        left.contains_key(c) && left[c] != Set::<SwapId>::empty() ==> now.contains_key(c)
}

/// What a clean-up has done by the time that it sends something, where all syncers that were told
/// to stop could be told if `all` holds.
pub open spec fn clean_so_far(
    start: State,
    swap: SwapId,
    outcome: Outcome,
    s: State,
    after: AfterSend,
    all: bool,
) -> bool {
    match after {
        AfterSend::SwapStopped { swap: x, outcome: o } => {
            &&& x == swap
            &&& o == outcome
            &&& s == (State { running_swaps: start.running_swaps.remove(swap), ..start })
        },
        AfterSend::PeerStopped { swap: x, outcome: o } => {
            &&& x == swap
            &&& o == outcome
            &&& same_but_for_swap(start, s, swap)
            &&& same_syncers(start, s)
        },
        AfterSend::SyncerStopped { swap: x, chain, rest, outcome: o } => {
            &&& x == swap
            &&& o == outcome
            &&& same_but_for_swap(start, s, swap)
            &&& s.stats == start.stats
            &&& s.syncer_services == start.syncer_services
            &&& stopping(clients_left(start, swap), s.syncer_clients, rest@.push(chain), all)
        },
        _ => false,
    }
}

/// The syncers and the counts are as before.
pub open spec fn same_syncers(a: State, b: State) -> bool {
    a.syncer_clients == b.syncer_clients && a.syncer_services == b.syncer_services && a.stats
        == b.stats
}

/// Syncers are being told to stop: those that are still to be told have no clients, and if all
/// others could be told, no other syncer has none.
pub open spec fn stopping(
    left: Map<Chain, Set<SwapId>>,
    now: Map<Chain, Set<SwapId>>,
    idle: Seq<Chain>,
    all: bool,
) -> bool {
    &&& only_idle_gone(left, now)
    &&& idle.no_duplicates()
    &&& forall|c: Chain| #[trigger]
        idle.contains(c) ==> now.contains_key(c) && now[c] == Set::<SwapId>::empty()
    &&& all ==> forall|c: Chain| #[trigger]
        now.contains_key(c) && now[c] == Set::<SwapId>::empty() ==> idle.contains(c)
}

/// A clean-up has come this far, or has ended well, or has failed because something could not be
/// sent.
pub open spec fn cleaning(
    start: State,
    swap: SwapId,
    outcome: Outcome,
    s: State,
    step: Step,
    all: bool,
) -> bool {
    match step {
        Step::Send(_, after) => clean_so_far(start, swap, outcome, s, after, all),
        Step::Done => {
            &&& cleaned(s, swap)
            &&& same_but_for_swap(start, s, swap)
            &&& s.stats == start.stats.with_outcome(outcome)
            &&& only_idle_gone(clients_left(start, swap), s.syncer_clients)
            &&& s.syncer_services == start.syncer_services.restrict(s.syncer_clients.dom())
            &&& all ==> s.syncer_clients == busy(clients_left(start, swap))
        },
        Step::Fail(e) => e is Send,
        _ => false,
    }
}

/// The syncers that have clients.
pub open spec fn busy(clients: Map<Chain, Set<SwapId>>) -> Map<Chain, Set<SwapId>> {
    table::kept(clients, |s: Set<SwapId>| s != Set::<SwapId>::empty())
}

proof fn lemma_stop_syncers(
    start: State,
    swap: SwapId,
    outcome: Outcome,
    pre: State,
    idle: Seq<Chain>,
    all: bool,
    post: State,
    step: Step,
)
    requires
        same_but_for_swap(start, pre, swap),
        pre.stats == start.stats,
        pre.syncer_services == start.syncer_services,
        stopping(clients_left(start, swap), pre.syncer_clients, idle, all),
        State::stop_syncers(pre, swap, idle, outcome, post, step),
    ensures
        cleaning(start, swap, outcome, post, step, all),
        !(step is Fail),
{
    let left = clients_left(start, swap);
    if idle.len() == 0 {
        assert(syncers_free(post, swap)) by {
            assert forall|chain: Chain| #[trigger]
                post.syncer_clients.contains_key(
                    chain,
                ) implies !post.syncer_clients[chain].contains(swap) by {
                assert(left.contains_key(chain) && left[chain] == post.syncer_clients[chain]);
            }
        }
        if all {
            assert forall|c: Chain| busy(left).contains_key(c) <==> post.syncer_clients.contains_key(
                c,
            ) by {
                if post.syncer_clients.contains_key(c) {
                    assert(left.contains_key(c) && left[c] == post.syncer_clients[c]);
                    if post.syncer_clients[c] == Set::<SwapId>::empty() {
                        assert(idle.contains(c));
                    }
                }
            }
            assert(post.syncer_clients =~= busy(left));
        }
    } else {
        assert(idle.drop_last().push(idle.last()) =~= idle);
    }
}

proof fn lemma_release_syncers(
    start: State,
    swap: SwapId,
    outcome: Outcome,
    pre: State,
    all: bool,
    post: State,
    step: Step,
)
    requires
        same_but_for_swap(start, pre, swap),
        same_syncers(start, pre),
        State::release_syncers(pre, swap, outcome, post, step),
    ensures
        cleaning(start, swap, outcome, post, step, all),
        !(step is Fail),
{
    let s = pre.syncers_left(swap);
    let idle = choose|idle: Seq<Chain>| #[trigger]
        table::lists(idle, s.idle_syncers()) && State::stop_syncers(
            s,
            swap,
            idle,
            outcome,
            post,
            step,
        );
    assert forall|c: Chain| #[trigger] idle.contains(c) <==> s.syncer_clients.contains_key(c)
        && s.syncer_clients[c] == Set::<SwapId>::empty() by {
        if idle.contains(c) {
            assert(s.idle_syncers().contains(idle[idle.index_of(c)]));
        }
        if s.syncer_clients.contains_key(c) && s.syncer_clients[c] == Set::<SwapId>::empty() {
            assert(s.idle_syncers().contains(c));
        }
    }
    lemma_stop_syncers(start, swap, outcome, s, idle, all, post, step);
}

proof fn lemma_release(
    start: State,
    swap: SwapId,
    outcome: Outcome,
    pre: State,
    all: bool,
    post: State,
    step: Step,
)
    requires
        pre == (State { running_swaps: start.running_swaps.remove(swap), ..start }),
        State::release_offer(pre, swap, outcome, post, step),
    ensures
        cleaning(start, swap, outcome, post, step, all),
        !(step is Fail),
{
    let s = pre.offers_released(swap);
    assert(same_but_for_swap(start, s, swap));
    if exists|offer: OfferId| #[trigger]
        pre.consumed_offers.contains_key(offer) && pre.consumed_offers[offer] == swap {
        let offer = choose|offer: OfferId| #[trigger]
            pre.consumed_offers.contains_key(offer) && pre.consumed_offers[offer] == swap
                && State::release_listener(s, offer, swap, outcome, post, step);
        let t = s.listener_released(offer);
        assert(same_but_for_swap(start, t, swap));
        if s.listens.contains_key(offer) && s.node_ids.contains_key(offer) {
            let node = s.listening_node(offer);
            if !t.listens.values().contains(node.remote_addr) && t.connections.contains(node) {
            } else {
                lemma_release_syncers(start, swap, outcome, t, all, post, step);
            }
        } else {
            lemma_release_syncers(start, swap, outcome, s, all, post, step);
        }
    } else {
        lemma_release_syncers(start, swap, outcome, s, all, post, step);
    }
}

/// All sends went well.
pub open spec fn all_sent(results: Seq<Result<(), String>>) -> bool {
    forall|i: int| 0 <= i < results.len() ==> (#[trigger] results[i]) is Ok
}

proof fn lemma_cleaning_step(
    start: State,
    swap: SwapId,
    outcome: Outcome,
    pre: State,
    after: AfterSend,
    all: bool,
    result: Result<(), String>,
    post: State,
    step: Step,
)
    requires
        clean_so_far(start, swap, outcome, pre, after, all),
        State::sent(pre, after, result, post, step),
    ensures
        cleaning(start, swap, outcome, post, step, all && result is Ok),
        result is Ok ==> !(step is Fail),
{
    let ok = result is Ok;
    match after {
        AfterSend::SwapStopped { .. } => {
            if ok {
                lemma_release(start, swap, outcome, pre, all && ok, post, step);
            }
        },
        AfterSend::PeerStopped { .. } => {
            if ok {
                lemma_release_syncers(start, swap, outcome, pre, all && ok, post, step);
            }
        },
        AfterSend::SyncerStopped { chain, rest, .. } => {
            let left = clients_left(start, swap);
            let s = if ok {
                State { syncer_clients: pre.syncer_clients.remove(chain), ..pre }
            } else {
                pre
            };
            let idle = rest@.push(chain);
            assert(idle[rest@.len() as int] == chain);
            assert(idle.contains(chain));
            assert forall|c: Chain| #[trigger] rest@.contains(c) implies c != chain && idle.contains(
                c,
            ) by {
                let i = rest@.index_of(c);
                assert(idle[i] == c);
            }
            assert forall|i: int, j: int|
                0 <= i < rest@.len() && 0 <= j < rest@.len() && i != j implies rest@[i]
                != rest@[j] by {
                assert(idle[i] != idle[j]);
            }
            assert forall|c: Chain| #[trigger] idle.contains(c) && c != chain implies rest@.contains(
                c,
            ) by {
                let i = idle.index_of(c);
                assert(rest@[i] == c);
            }
            assert(only_idle_gone(left, s.syncer_clients));
            lemma_stop_syncers(start, swap, outcome, s, rest@, all && ok, post, step);
        },
        _ => {},
    }
}

proof fn lemma_cleaning(
    start: State,
    swap: SwapId,
    outcome: Outcome,
    pre: State,
    step: Step,
    all: bool,
    results: Seq<Result<(), String>>,
    post: State,
    end: Step,
)
    requires
        cleaning(start, swap, outcome, pre, step, all),
        follows(pre, step, results, post, end),
    ensures
        cleaning(start, swap, outcome, post, end, all && all_sent(results)),
        all_sent(results) && !(step is Fail) ==> !(end is Fail),
    decreases results.len(),
{
    if results.len() > 0 {
        let (mid, next) = choose|mid: State, next: Step| #[trigger]
            State::sent(pre, step->Send_1, results[0], mid, next) && follows(
                mid,
                next,
                results.skip(1),
                post,
                end,
            );
        let ok = results[0] is Ok;
        lemma_cleaning_step(start, swap, outcome, pre, step->Send_1, all, results[0], mid, next);
        lemma_cleaning(start, swap, outcome, mid, next, all && ok, results.skip(1), post, end);
        assert(all_sent(results) <==> ok && all_sent(results.skip(1))) by {
            assert forall|i: int| 0 <= i < results.skip(1).len() implies #[trigger] results.skip(
                1,
            )[i] == results[i + 1] by {}
            if ok && all_sent(results.skip(1)) {
                assert forall|i: int| 0 <= i < results.len() implies (#[trigger] results[i]) is Ok by {
                    if i > 0 {
                        assert(results.skip(1)[i - 1] is Ok);
                    }
                }
            }
        }
    }
}

/// The end of a swap leaves nothing of it: whatever was sent on the way, and whichever syncers
/// could not be told to stop, once the request is carried out the swap does not run, no offer is
/// consumed by it, it is no client of any syncer, its outcome is counted, and syncers with other
/// clients keep them and stay registered. Of all other swaps and offers nothing has changed. If
/// all could be told, the syncers without clients are gone. If the request fails, something could
/// not be sent.
pub proof fn law_end_of_swap_leaves_nothing(
    pre: State,
    swap: SwapId,
    outcome: Outcome,
    mid: State,
    step: Step,
    results: Seq<Result<(), String>>,
    post: State,
    end: Step,
)
    requires
        State::swap_outcome(pre, ServiceId::Swap(swap), outcome, mid, step),
        follows(mid, step, results, post, end),
        !(end is Send),
    ensures
        end is Done || (end matches Step::Fail(e) && e is Send),
        end is Done ==> {
            &&& cleaned(post, swap)
            &&& same_but_for_swap(pre, post, swap)
            &&& post.stats == pre.stats.with_outcome(outcome)
            &&& only_idle_gone(clients_left(pre, swap), post.syncer_clients)
            &&& post.syncer_services == pre.syncer_services.restrict(post.syncer_clients.dom())
            &&& all_sent(results) ==> post.syncer_clients == busy(clients_left(pre, swap))
        },
        all_sent(results) ==> end is Done,
{
    if !pre.running_swaps.contains(swap) {
        assert(pre.running_swaps.remove(swap) =~= pre.running_swaps);
        lemma_release(pre, swap, outcome, pre, true, mid, step);
    }
    lemma_cleaning(pre, swap, outcome, mid, step, true, results, post, end);
}

/// A swap that was cleaned up is not cleaned up again: after a clean-up in which everything could
/// be sent, a second one for the same swap sends nothing and changes nothing but the count of the
/// outcome, which ends it.
pub proof fn law_second_clean_up_does_nothing(
    pre: State,
    swap: SwapId,
    outcome: Outcome,
    mid: State,
    step: Step,
    results: Seq<Result<(), String>>,
    post: State,
    end: Step,
    again: Outcome,
    last: State,
    last_step: Step,
)
    requires
        State::clean_up_after_swap(pre, swap, outcome, mid, step),
        follows(mid, step, results, post, end),
        all_sent(results),
        !(end is Send),
        State::clean_up_after_swap(post, swap, again, last, last_step),
    ensures
        end is Done,
        last_step is Done,
        last == (State { stats: post.stats.with_outcome(again), ..post }),
{
    law_end_of_swap_leaves_nothing(pre, swap, outcome, mid, step, results, post, end);
    let s = post.offers_released(swap);
    assert(s.consumed_offers =~= post.consumed_offers);
    assert(s == post);
    let t = post.syncers_left(swap);
    assert forall|c: Chain| #[trigger]
        post.syncer_clients.contains_key(c) implies t.syncer_clients[c] == post.syncer_clients[c] by {
        assert(t.syncer_clients[c] =~= post.syncer_clients[c]);
    }
    assert(t.syncer_clients =~= post.syncer_clients);
    assert(t.idle_syncers() =~= Set::<Chain>::empty());
    let idle = choose|idle: Seq<Chain>| #[trigger]
        table::lists(idle, t.idle_syncers()) && State::stop_syncers(
            t,
            swap,
            idle,
            again,
            last,
            last_step,
        );
    if idle.len() > 0 {
        assert(t.idle_syncers().contains(idle[0]));
    }
    assert(post.syncer_services.restrict(post.syncer_clients.dom()) =~= post.syncer_services);
}

/// A syncer that other swaps use is left alone at the end of a swap: it keeps its other clients,
/// and stays registered.
pub proof fn law_shared_syncer_stays(
    pre: State,
    swap: SwapId,
    other: SwapId,
    chain: Chain,
    outcome: Outcome,
    post: State,
    step: Step,
)
    requires
        State::release_syncers(pre, swap, outcome, post, step),
        pre.syncer_clients.contains_key(chain),
        pre.syncer_clients[chain].contains(other),
        other != swap,
    ensures
        post.syncer_clients.contains_key(chain),
        post.syncer_clients[chain] == pre.syncer_clients[chain].remove(swap),
        pre.syncer_services.contains_key(chain) ==> post.syncer_services.contains_key(chain),
        step matches Step::Send(e, _) ==> e.dest != ServiceId::Syncer(chain),
        step matches Step::Send(_, AfterSend::SyncerStopped { rest, .. }) ==> !rest@.contains(chain),
{
    let s = pre.syncers_left(swap);
    let idle = choose|idle: Seq<Chain>| #[trigger]
        table::lists(idle, s.idle_syncers()) && State::stop_syncers(
            s,
            swap,
            idle,
            outcome,
            post,
            step,
        );
    assert(s.syncer_clients[chain].contains(other));
    assert(!s.idle_syncers().contains(chain));
    assert(!idle.contains(chain)) by {
        if idle.contains(chain) {
            assert(s.idle_syncers().contains(idle[idle.index_of(chain)]));
        }
    }
    if idle.len() > 0 {
        assert(idle.contains(idle.last()));
        if idle.drop_last().contains(chain) {
            let i = idle.drop_last().index_of(chain);
            assert(idle[i] == chain);
        }
    }
}

/// A peer daemon that another offer listens through is left alone when an offer is released.
pub proof fn law_shared_listener_stays(
    pre: State,
    offer: OfferId,
    other: OfferId,
    swap: SwapId,
    outcome: Outcome,
    post: State,
    step: Step,
)
    requires
        State::release_listener(pre, offer, swap, outcome, post, step),
        other != offer,
        pre.listens.contains_key(offer),
        pre.listens.contains_key(other),
        pre.listens[other] == pre.listens[offer],
    ensures
        post.connections == pre.connections,
        post.listens.contains_key(other),
        post.listens[other] == pre.listens[other],
{
    let s = pre.listener_released(offer);
    assert(s.listens.contains_key(other) && s.listens[other] == pre.listens[offer]);
    assert(s.listens.values().contains(pre.listens[offer]));
}

/// The step is to tell the wallet something over the bus of the peer protocol.
pub open spec fn tells_wallet(source: ServiceId, request: Request, step: Step) -> bool {
    step matches Step::Send(e, _) && e == state::to_wallet(source, request)
}

/// An offer that was registered here is recognised when a taker commits to it under the text that
/// was handed out: the wallet learns the two addresses that the maker gave, and then the
/// commitment, in the name of the peer daemon that it came from. A swap that is then launched for
/// the offer speaks through that daemon. An offer whose socket has no port cannot be read back
/// from its text.
pub proof fn law_registered_offer_is_recognised(
    pre: State,
    m: Making,
    text: Seq<char>,
    network: chain::MoneroNetwork,
    listening: Notice,
    mid: State,
    step: Step,
    source: ServiceId,
    commit: TakeCommit,
    s1: State,
    step1: Step,
    s2: State,
    step2: Step,
    s3: State,
    step3: Step,
)
    requires
        m.offer@.made_public(m.node_id, m.public_addr.socket()) == Some(text),
        !pre.public_offers.contains_key(text),
        chain::monero_network(m.accordant_addr@) == Ok::<chain::MoneroNetwork, Option<Seq<char>>>(
            network,
        ),
        state::has_port(m.public_addr.socket()),
        State::register_offer(pre, m, listening, mid, step),
        commit.public_offer@ == text,
        State::taker_commit(mid, source, commit, s1, step1),
        State::sent(s1, step1->Send_1, Ok(()), s2, step2),
        State::sent(s2, step2->Send_1, Ok(()), s3, step3),
    ensures
        mid.public_offers.contains_key(text),
        tells_wallet(
            pre.identity,
            Request::BitcoinAddress(commit.swap_id, m.arbitrating_addr),
            step1,
        ),
        tells_wallet(
            pre.identity,
            Request::MoneroAddress(
                commit.swap_id,
                MoneroAddress { network, text: m.accordant_addr },
            ),
            step2,
        ),
        tells_wallet(source, Request::Protocol(Msg::TakerCommit(commit)), step3),
        step3->Send_1 is Finish,
        s3.peerd_ids.contains_key(m.offer@.uuid),
        s3.peerd_ids[m.offer@.uuid] == source,
        !s3.arb_addrs.contains_key(text),
        !s3.acc_addrs.contains_key(text),
        s3.public_offers == mid.public_offers,
{
}

/// Public offers do not share the addresses that their makers are to be paid at: neither the
/// registration of another public offer, be it of the same terms at another socket, nor a taker's
/// commitment to it touches them.
pub proof fn law_payout_addresses_are_kept_apart(
    pre: State,
    m: Making,
    listening: Notice,
    source: ServiceId,
    offer: OfferId,
    other: Seq<char>,
    commit: TakeCommit,
    text: Seq<char>,
    post: State,
    step: Step,
)
    requires
        text != other,
    ensures
        State::register_offer(pre, m, listening, post, step) && m.offer@.made_public(
            m.node_id,
            m.public_addr.socket(),
        ) == Some(other) ==> same_payout(pre, post, text),
        State::pay_arbitrating(pre, source, offer, other, commit, post, step)
            || State::pay_accordant(pre, source, offer, other, commit, post, step) ==> same_payout(
            pre,
            post,
            text,
        ),
{
}

/// The same addresses are kept for the public offer.
pub open spec fn same_payout(a: State, b: State, text: Seq<char>) -> bool {
    &&& a.arb_addrs.contains_key(text) == b.arb_addrs.contains_key(text)
    &&& a.arb_addrs.contains_key(text) ==> a.arb_addrs[text] == b.arb_addrs[text]
    &&& a.acc_addrs.contains_key(text) == b.acc_addrs.contains_key(text)
    &&& a.acc_addrs.contains_key(text) ==> a.acc_addrs[text] == b.acc_addrs[text]
}

/// A swap that is launched for an offer speaks through the peer daemon that the taker's commitment
/// came from.
pub proof fn law_swap_speaks_through_takers_peer(
    pre: State,
    source: ServiceId,
    offer: OfferId,
    commit: TakeCommit,
    mid: State,
    step: Step,
    req: LaunchSwap,
    post: State,
    end: Step,
)
    requires
        State::forward_commit(pre, source, offer, commit, mid, step),
        req.public_offer@.uuid() == offer,
        State::launch_swap(mid, req, post, end),
        end is Launch,
    ensures
        end->Launch_1 is Swapd,
        end->Launch_1->Swapd_init@.peerd == source,
{
}

/// An offer that cannot be read, or that is not registered, is not committed to: nothing changes
/// and nothing is sent.
pub proof fn law_unknown_commitment_changes_nothing(
    pre: State,
    source: ServiceId,
    commit: TakeCommit,
    post: State,
    step: Step,
)
    requires
        State::taker_commit(pre, source, commit, post, step),
        crate::offer::offer_named(commit.public_offer@) matches Ok(text)
            ==> !pre.public_offers.contains_key(text),
    ensures
        post == pre,
        step is Done || (step matches Step::Fail(e) && e is OfferFormat),
{
}

/// A second offer at an address that is listened at needs no keys and no peer daemon: it gets the
/// node key of the first.
pub proof fn law_listener_is_shared(
    pre: State,
    first: OfferId,
    source: ServiceId,
    req: ProtoPublicOffer,
    post: State,
    step: Step,
)
    requires
        pre.wf(),
        pre.listens.contains_key(first),
        pre.listens[first] == req.bind_addr,
        State::make_offer(pre, source, req, post, step),
    ensures
        !(step is Launch),
        post.listens.contains_key(req.offer@.uuid),
        post.listens[req.offer@.uuid] == req.bind_addr,
        post.node_ids[req.offer@.uuid] == pre.node_ids[first],
        post.pending_requests == pre.pending_requests,
{
    assert(pre.listens.values().contains(req.bind_addr));
    assert(pre.listens.dom().contains(first));
    assert forall|key: Option<PublicKey>| #[trigger]
        pre.bound(req.bind_addr, key) implies key == Some(pre.node_ids[first]) by {
        let o = choose|o: OfferId| #[trigger]
            pre.listens.contains_key(o) && pre.listens[o] == req.bind_addr && key == (
            if pre.node_ids.contains_key(o) {
                Some(pre.node_ids[o])
            } else {
                None
            });
        assert(pre.listens.dom().contains(o));
        assert(pre.node_ids.dom().contains(o));
    }
}

/// At least as many swaps are counted as waiting for a coin as are known to wait for it.
pub open spec fn count_covers(s: State, coin: Coin) -> bool {
    let waiting = s.fundings(coin).dom();
    waiting.finite() && waiting.len() <= s.stats.awaiting(coin)
}

/// The daemon starts with counts that cover the swaps that wait.
pub proof fn law_counts_cover_at_start(
    config: Config,
    wallet_token: String,
    started: Moment,
    coin: Coin,
)
    ensures
        count_covers(State::initial(config, wallet_token, started), coin),
{
    let s = State::initial(config, wallet_token, started);
    assert(s.fundings(coin).dom() =~= Set::empty());
}

/// The count of a coin still covers the swaps that wait for it after every request, but for one:
/// a swap that waited for Bitcoin and was called off is counted off from those that wait for
/// Monero.
pub proof fn law_counts_cover(
    pre: State,
    source: ServiceId,
    request: Request,
    now: Moment,
    post: State,
    step: Step,
    coin: Coin,
)
    requires
        count_covers(pre, coin),
        pre.admits(source, request),
        State::handle_rpc_ctl(pre, source, request, now, post, step),
        !(coin is Monero && request == Request::FundingCanceled(Coin::Bitcoin)),
    ensures
        count_covers(post, coin),
        step matches Step::Fund(info, _) ==> coin == state::funding_coin(info) ==> forall|ok: bool|
            count_covers(#[trigger] post.funding_noted(info, ok), coin),
{
    reveal_with_fuel(State::syncers_up, 3);
    let a = pre.fundings(coin);
    match request {
        Request::FundingInfo(info) => {
            let swap = funding_swap(info);
            let s = State { stats: pre.stats.with_awaiting(state::funding_coin(info)), ..pre };
            assert(s.fundings(coin) =~= a);
            if coin == state::funding_coin(info) {
                assert forall|ok: bool| count_covers(#[trigger] s.funding_noted(info, ok), coin) by {
                    assert(s.funding_noted(info, ok).fundings(coin).dom() =~= a.dom().insert(swap));
                }
                assert(count_covers(s.funding_noted(info, false), coin));
            } else {
                assert(s.funding_noted(info, false).fundings(coin) =~= a);
            }
        },
        Request::FundingCompleted(c) => {
            if let ServiceId::Swap(swap) = source {
                if c == coin {
                    if pre.awaits_funding(swap, coin) {
                        assert(post.fundings(coin).dom() =~= a.dom().remove(swap));
                        assert(a.dom().contains(swap));
                    }
                } else {
                    assert(post.fundings(coin) =~= a);
                }
            }
        },
        Request::FundingCanceled(c) => {
            if let ServiceId::Swap(swap) = source {
                if c == coin {
                    if pre.awaits_funding(swap, coin) {
                        assert(post.fundings(coin).dom() =~= a.dom().remove(swap));
                        assert(a.dom().contains(swap));
                    }
                } else {
                    assert(post.fundings(coin) =~= a);
                }
            }
        },
        _ => {
            lemma_other_requests_keep_funding(pre, source, request, now, post, step);
        },
    }
}

/// The swap that waits for coins.
pub open spec fn funding_swap(info: FundingInfo) -> SwapId {
    match info {
        FundingInfo::Bitcoin { swap_id, .. } => swap_id,
        FundingInfo::Monero { swap_id, .. } => swap_id,
    }
}

proof fn lemma_other_requests_keep_funding(
    pre: State,
    source: ServiceId,
    request: Request,
    now: Moment,
    post: State,
    step: Step,
)
    requires
        State::handle_rpc_ctl(pre, source, request, now, post, step),
        !(request is FundingInfo || request is FundingCompleted || request is FundingCanceled),
    ensures
        post.funding_btc == pre.funding_btc,
        post.funding_xmr == pre.funding_xmr,
        post.stats.awaiting_funding_btc == pre.stats.awaiting_funding_btc,
        post.stats.awaiting_funding_xmr == pre.stats.awaiting_funding_xmr,
        !(step is Fund),
{
    reveal_with_fuel(State::syncers_up, 3);
}

/// Where the count of a coin covers the swaps that wait for it, a swap that got the coin can be
/// counted off.
pub proof fn law_covered_swap_is_counted_off(pre: State, swap: SwapId, coin: Coin)
    requires
        count_covers(pre, coin),
        pre.awaits_funding(swap, coin),
        pre.stats.funded(coin) < u64::MAX,
    ensures
        pre.admits(ServiceId::Swap(swap), Request::FundingCompleted(coin)),
{
    let waiting = pre.fundings(coin).dom();
    assert(waiting.contains(swap));
    if waiting.len() == 0 {
        assert(waiting =~= Set::empty());
    }
}

/// A swap that waits for coins and gets them is counted as waiting in between, and as funded in
/// the end; after that it does not wait any more.
pub proof fn law_funding_round_trip(
    pre: State,
    info: FundingInfo,
    ok: bool,
    mid: State,
    step: Step,
    post: State,
    end: Step,
)
    requires
        pre.stats.awaiting(state::funding_coin(info)) < u64::MAX,
        pre.stats.funded(state::funding_coin(info)) < u64::MAX,
        State::funding_info(pre, info, mid, step),
        State::funding_completed(
            if step is Fund {
                mid.funding_noted(info, ok)
            } else {
                mid
            },
            ServiceId::Swap(funding_swap(info)),
            state::funding_coin(info),
            post,
            end,
        ),
    ensures
        end is Done,
        !post.awaits_funding(funding_swap(info), state::funding_coin(info)),
        post.stats.awaiting(state::funding_coin(info)) == pre.stats.awaiting(
            state::funding_coin(info),
        ),
        post.stats.funded(state::funding_coin(info)) == pre.stats.funded(state::funding_coin(info))
            + 1,
{
}

/// A swap whose coins could not be sent, or were not to be sent, is put into words for a client,
/// with its address and amount; one whose coins were sent is not.
pub proof fn law_unfunded_swap_is_listed(
    pre: State,
    info: FundingInfo,
    ok: bool,
    client: ServiceId,
    post: State,
    step: Step,
)
    requires
        State::needs_funding(
            pre.funding_noted(info, ok),
            client,
            state::funding_coin(info),
            post,
            step,
        ),
    ensures
        step is Describe,
        step->Describe_0@.contains(info) <==> !ok,
{
    let s = pre.funding_noted(info, ok);
    let coin = state::funding_coin(info);
    let swap = funding_swap(info);
    let list = step->Describe_0@;
    let part = state::unsent(s.fundings(coin));
    let infos = state::not_sent(list);
    let keys = choose|keys: Seq<SwapId>| #[trigger]
        table::lists(keys, part.dom()) && infos == table::looked_up(keys, part);
    match info {
        FundingInfo::Bitcoin { swap_id, address, amount } => {
            assert(s.funding_btc[swap_id] == (address, amount, ok));
            assert(s.fundings(coin)[swap] == (info, ok));
        },
        FundingInfo::Monero { swap_id, address, amount } => {
            assert(s.funding_xmr[swap_id] == (address, amount, ok));
            assert(s.fundings(coin)[swap] == (info, ok));
        },
    }
    assert forall|k: SwapId| #[trigger] part.contains_key(k) implies funding_swap(part[k].0)
        == k by {}
    assert(keys.len() == infos.len() && infos.len() == list.len());
    if !ok {
        assert(part.contains_key(swap));
        assert(part.dom().contains(swap));
        let i = keys.index_of(swap);
        assert(infos[i] == part[swap]);
        assert(infos[i].0 == list[i]);
    } else {
        if list.contains(info) {
            let i = list.index_of(info);
            assert(infos[i] == (info, false));
            assert(infos[i] == part[keys[i]]);
            assert(part.dom().contains(keys[i]));
            assert(part.contains_key(keys[i]));
        }
    }
}

proof fn lemma_in_lines(lines: Seq<Seq<char>>, total: nat, more: nat)
    requires
        lines.len() < total,
        lines.len() < more,
    ensures
        state::in_lines(lines, total) == state::in_lines(lines, more),
    decreases lines.len(),
{
    if lines.len() > 0 {
        lemma_in_lines(lines.drop_last(), total, more);
    }
}

/// Where no coins were sent, the lines that a client reads are parted by newlines: each further
/// line stands behind a newline, and the last one has none behind it.
pub proof fn law_lines_are_parted_by_newlines(lines: Seq<Seq<char>>, line: Seq<char>)
    requires
        lines.len() > 0,
    ensures
        state::in_lines(lines.push(line), lines.len() + 1) == state::in_lines(lines, lines.len())
            + "\n"@ + line,
{
    let all = lines.push(line);
    let total = lines.len() + 1;
    assert(all.drop_last() =~= lines);
    lemma_in_lines(lines.drop_last(), total, lines.len());
    assert(state::in_lines(lines, total) == state::in_lines(lines, lines.len()) + "\n"@);
}

/// What comes after a step, and requests over the bus of the peer protocol, leave the swaps that
/// wait for coins and their counts as they are.
pub proof fn law_steps_keep_funding(pre: State, post: State, step: Step)
    ensures
        forall|after: AfterSend, result: Result<(), String>| #[trigger]
            State::sent(pre, after, result, post, step) ==> same_funding(pre, post),
        forall|after: AfterLaunch, pid: Result<u32, String>| #[trigger]
            State::launched(pre, after, pid, post, step) ==> same_funding(pre, post),
        forall|after: AfterWatch, result: Watched| #[trigger]
            State::watched(pre, after, result, post, step) ==> same_funding(pre, post),
        forall|source: ServiceId, request: Request| #[trigger]
            State::handle_rpc_msg(pre, source, request, post, step) ==> same_funding(pre, post),
{
    reveal_with_fuel(State::syncers_up, 3);
}

/// The same swaps wait for coins, and as many are counted.
pub open spec fn same_funding(a: State, b: State) -> bool {
    &&& a.funding_btc == b.funding_btc
    &&& a.funding_xmr == b.funding_xmr
    &&& a.stats.awaiting_funding_btc == b.stats.awaiting_funding_btc
    &&& a.stats.awaiting_funding_xmr == b.stats.awaiting_funding_xmr
}

/// Answers go out in order: after some were sent, the next one is sent, and nothing has changed.
pub proof fn law_answers_go_out_in_order(
    pre: State,
    reports: Seq<Report>,
    step: Step,
    results: Seq<Result<(), String>>,
    post: State,
    end: Step,
)
    requires
        state::reporting(pre.identity, reports, step),
        all_sent(results),
        results.len() <= reports.len(),
        follows(pre, step, results, post, end),
    ensures
        post == pre,
        state::reporting(pre.identity, reports.skip(results.len() as int), end),
    decreases results.len(),
{
    if results.len() == 0 {
        assert(reports.skip(0) =~= reports);
    } else {
        let (mid, next) = choose|mid: State, next: Step| #[trigger]
            State::sent(pre, step->Send_1, results[0], mid, next) && follows(
                mid,
                next,
                results.skip(1),
                post,
                end,
            );
        assert(results[0] is Ok);
        assert forall|i: int| 0 <= i < results.skip(1).len() implies (#[trigger] results.skip(
            1,
        )[i]) is Ok by {
            assert(results[i + 1] is Ok);
        }
        law_answers_go_out_in_order(mid, reports.skip(1), next, results.skip(1), post, end);
        assert(reports.skip(1).skip(results.len() - 1) =~= reports.skip(results.len() as int));
    }
}

} // verus!
