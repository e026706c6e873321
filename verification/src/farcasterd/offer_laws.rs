//! What the daemon owes to those who make and take offers. Each law says what a request leads to,
//! in terms of what was there before.

use crate::addr::{self, InetSocketAddr, NodeAddr, RemoteSocketAddr};
use crate::chain::{self, BitcoinAddress, MoneroAddress};
use crate::clock::Moment;
use crate::farcasterd::launch::{self, Daemon};
use crate::farcasterd::state::State;
use crate::farcasterd::step::{AfterLaunch, AfterSend, AfterWatch, Making, Report, Step, Watched};
use crate::farcasterd::swap_laws;
use crate::ident::{self, OfferId, PublicKey, RequestId, SecretKey};
use crate::offer::{self, Terms};
use crate::rpc::{Error, Msg, Notice, ProtoPublicOffer, PubOffer, Request, TakeCommit};
use crate::service::{ServiceBus, ServiceId};
use crate::text;
use vstd::prelude::*;

verus! {

/// The socket of an address, whatever is spoken on it.
pub open spec fn socket_in(a: RemoteSocketAddr) -> InetSocketAddr {
    match a {
        RemoteSocketAddr::Ftcp(s) => s,
        RemoteSocketAddr::Zmq(s) => s,
        RemoteSocketAddr::Http(s) => s,
        RemoteSocketAddr::Websocket(s) => s,
        RemoteSocketAddr::Smtp(s) => s,
    }
}

/// The compressed form of a key in hexadecimal digits.
pub open spec fn key_digits(key: PublicKey) -> Seq<char> {
    (if key.odd {
        "03"@
    } else {
        "02"@
    }) + ident::hex32(key.hi, key.lo)
}

/// The text that terms have when they are made public by a node that is reached at an address.
pub open spec fn shared_text(terms: Terms, key: PublicKey, public_addr: RemoteSocketAddr) -> Option<
    Seq<char>,
> {
    offer::offer_made(1, terms.encoding, key_digits(key), socket_in(public_addr))
}

/// The wallet is asked for keys, under an identifier that the request then waits under.
pub open spec fn asks_for_keys(
    pre: State,
    source: ServiceId,
    request: Request,
    post: State,
    step: Step,
) -> bool {
    exists|id: RequestId|
        {
            &&& #[trigger] swap_laws::sends(
                step,
                ServiceBus::Ctl,
                ServiceId::Farcasterd,
                ServiceId::Wallet,
                Request::GetKeys { token: pre.wallet_token, id },
            )
            &&& step->Send_1 is Finish
            &&& post == (State {
                pending_requests: pre.pending_requests.insert(id, (request, source)),
                ..pre
            })
        }
}

/// An offer is listened for: at an address, with a key.
pub open spec fn listening(s: State, offer: OfferId, at: RemoteSocketAddr, key: PublicKey) -> State {
    State {
        listens: s.listens.insert(offer, at),
        node_ids: s.node_ids.insert(offer, key),
        ..s
    }
}

/// The terms are made public as those of the node, at the socket that takers are to reach it at,
/// and registered under their text, with the addresses that the maker is to be paid at. Whoever
/// asked is told how it is listened for, and the text to share. Terms that are public already are
/// not registered again.
pub open spec fn made_public(
    pre: State,
    source: ServiceId,
    terms: Terms,
    key: PublicKey,
    public_addr: RemoteSocketAddr,
    arb: BitcoinAddress,
    acc: String,
    first: Notice,
    post: State,
    step: Step,
) -> bool {
    match shared_text(terms, key, public_addr) {
        None => post == pre && step == Step::Fail(Error::InvalidKey),
        Some(text) => if pre.public_offers.contains_key(text) {
            &&& post == pre
            &&& swap_laws::answers_twice(
                step,
                pre.identity,
                source,
                Request::Progress(first),
                Request::Failure { code: 1, info: Notice::OfferKnown },
            )
        } else {
            let shared = post.public_offers[text];
            &&& post == (State {
                public_offers: pre.public_offers.insert(text, shared),
                arb_addrs: pre.arb_addrs.insert(text, arb),
                acc_addrs: post.acc_addrs,
                ..pre
            })
            &&& shared.text@ == text
            &&& shared.version == 1
            &&& shared.offer == terms
            &&& shared.node_id == key
            &&& shared.peer_address == socket_in(public_addr)
            &&& match chain::monero_network(acc@) {
                Ok(network) => {
                    &&& post.acc_addrs == pre.acc_addrs.insert(
                        text,
                        MoneroAddress { network, text: acc },
                    )
                    &&& swap_laws::answers_twice(
                        step,
                        pre.identity,
                        source,
                        Request::Progress(first),
                        Request::Success(Some(Notice::ShareOffer(shared.text))),
                    )
                },
                Err(words) => {
                    &&& post.acc_addrs == pre.acc_addrs
                    &&& step matches Step::Fail(Error::AddressFormat(w))
                    &&& text::text_of(w) == words
                },
            }
        },
    }
}

/// A peer daemon is launched that listens at the address with the key, for an offer that is then
/// to be made public. Only framed TCP at an IP address can be listened at.
pub open spec fn launches_listener(
    token: Seq<char>,
    source: ServiceId,
    req: ProtoPublicOffer,
    sk: SecretKey,
    pk: PublicKey,
    step: Step,
) -> bool {
    match req.bind_addr {
        RemoteSocketAddr::Ftcp(InetSocketAddr::Tor(_)) => step == Step::Fail(Error::NoSocketAddr),
        RemoteSocketAddr::Ftcp(socket) => {
            let (ip, port) = match socket {
                InetSocketAddr::IPv4 { ip, port } => (addr::dotted(ip), port),
                InetSocketAddr::IPv6 { ip, port } => (addr::ipv6_text(ip), port),
                InetSocketAddr::Tor(_) => (Seq::empty(), 0),
            };
            &&& step matches Step::Launch(task, AfterLaunch::Listener(m))
            &&& swap_laws::runs(
                task,
                Daemon::Peerd,
                seq![
                    "--listen"@,
                    ip,
                    "--port"@,
                    text::decimal_digits(port as nat),
                    "--peer-secret-key"@,
                    ident::hex32(sk.hi, sk.lo),
                    "--token"@,
                    token,
                ],
            )
            &&& m.source == source
            &&& m.offer == req.offer
            &&& m.node_id == pk
            &&& m.public_addr == req.public_addr
            &&& m.arbitrating_addr == req.arbitrating_addr
            &&& m.accordant_addr == req.accordant_addr
        },
        _ => step == Step::Fail(Error::OnlyTcp),
    }
}

/// An offer that is to be made is listened for at the address to bind. If that is listened at
/// already, the offer gets the key of that listener and is made public at once; else a peer daemon
/// is launched with the keys of the request, or the wallet is asked for keys.
pub proof fn law_offer_is_listened_for(
    pre: State,
    source: ServiceId,
    req: ProtoPublicOffer,
    now: Moment,
    post: State,
    step: Step,
)
    requires
        State::handle(pre, ServiceBus::Ctl, source, Request::MakeOffer(req), now, post, step),
        forall|o: OfferId| #[trigger]
            pre.listens.contains_key(o) ==> pre.node_ids.contains_key(o),
    ensures
        (exists|o: OfferId| #[trigger]
            pre.listens.contains_key(o) && pre.listens[o] == req.bind_addr) ==> exists|o: OfferId|
            {
                &&& #[trigger] pre.listens.contains_key(o)
                &&& pre.listens[o] == req.bind_addr
                &&& made_public(
                    listening(pre, req.offer@.uuid, req.bind_addr, pre.node_ids[o]),
                    source,
                    req.offer@,
                    pre.node_ids[o],
                    req.public_addr,
                    req.arbitrating_addr,
                    req.accordant_addr,
                    Notice::AlreadyListening(req.bind_addr),
                    post,
                    step,
                )
            },
        (forall|o: OfferId| #[trigger]
            pre.listens.contains_key(o) ==> pre.listens[o] != req.bind_addr) ==> match (
            req.peer_secret_key,
            req.peer_public_key,
        ) {
            (Some(sk), Some(pk)) => {
                &&& post == listening(pre, req.offer@.uuid, req.bind_addr, pk)
                &&& launches_listener(pre.wallet_token@, source, req, sk, pk, step)
            },
            _ => asks_for_keys(pre, source, Request::MakeOffer(req), post, step),
        },
{
    let bound = exists|o: OfferId| #[trigger]
        pre.listens.contains_key(o) && pre.listens[o] == req.bind_addr;
    assert(bound == pre.listens.values().contains(req.bind_addr)) by {
        if bound {
            let o = choose|o: OfferId| #[trigger]
                pre.listens.contains_key(o) && pre.listens[o] == req.bind_addr;
            assert(pre.listens.values().contains(pre.listens[o]));
        }
        if pre.listens.values().contains(req.bind_addr) {
            let o = choose|o: OfferId|
                pre.listens.contains_key(o) && pre.listens[o] == req.bind_addr;
            assert(pre.listens.contains_key(o));
        }
    }
    let key = choose|key: Option<PublicKey>| #[trigger]
        pre.bound(req.bind_addr, key) && match key {
            Some(key) => State::register_offer(
                pre.listener_added(req.offer@.uuid, req.bind_addr, key),
                crate::farcasterd::state::making(source, req, key),
                Notice::AlreadyListening(req.bind_addr),
                post,
                step,
            ),
            None => match (req.peer_secret_key, req.peer_public_key) {
                (Some(sk), Some(pk)) => {
                    &&& post == pre.listener_added(req.offer@.uuid, req.bind_addr, pk)
                    &&& State::listen(
                        pre,
                        req.bind_addr,
                        sk,
                        crate::farcasterd::state::making(source, req, pk),
                        step,
                    )
                },
                _ => State::get_secret(pre, source, Request::MakeOffer(req), post, step),
            },
        };
    if bound {
        let o = choose|o: OfferId| #[trigger]
            pre.listens.contains_key(o) && pre.listens[o] == req.bind_addr && key == (
            if pre.node_ids.contains_key(o) {
                Some(pre.node_ids[o])
            } else {
                None
            });
        lemma_register(
            listening(pre, req.offer@.uuid, req.bind_addr, pre.node_ids[o]),
            crate::farcasterd::state::making(source, req, pre.node_ids[o]),
            Notice::AlreadyListening(req.bind_addr),
            post,
            step,
        );
        assert(pre.listens.contains_key(o));
    } else {
        match (req.peer_secret_key, req.peer_public_key) {
            (Some(sk), Some(pk)) => {
                if let Step::Launch(task, _) = step {
                    let (ip, port) = match socket_in(req.bind_addr) {
                        InetSocketAddr::IPv4 { ip, port } => (addr::IpAddr::V4(ip), port),
                        InetSocketAddr::IPv6 { ip, port } => (addr::IpAddr::V6(ip), port),
                        InetSocketAddr::Tor(_) => (addr::IpAddr::V4(0), 0),
                    };
                    swap_laws::lemma_runs(
                        task,
                        Daemon::Peerd,
                        launch::listen_words(ip, port, sk, pre.wallet_token@),
                    );
                }
            },
            _ => {
                let id = choose|id: RequestId| #[trigger]
                    State::await_keys(pre, id, source, Request::MakeOffer(req), post, step);
                assert(swap_laws::sends(
                    step,
                    ServiceBus::Ctl,
                    ServiceId::Farcasterd,
                    ServiceId::Wallet,
                    Request::GetKeys { token: pre.wallet_token, id },
                ));
            },
        }
    }
}

proof fn lemma_register(pre: State, m: Making, first: Notice, post: State, step: Step)
    requires
        State::register_offer(pre, m, first, post, step),
    ensures
        made_public(
            pre,
            m.source,
            m.offer@,
            m.node_id,
            m.public_addr,
            m.arbitrating_addr,
            m.accordant_addr,
            first,
            post,
            step,
        ),
{
}

/// An offer whose listener was launched is made public; one whose listener could not be launched
/// is not.
pub proof fn law_offer_with_a_listener_is_made_public(
    pre: State,
    m: Making,
    pid: Result<u32, String>,
    post: State,
    step: Step,
)
    requires
        State::launched(pre, AfterLaunch::Listener(m), pid, post, step),
    ensures
        pid matches Err(words) ==> post == pre && step == Step::Fail(Error::Launch(words)),
        pid matches Ok(pid) ==> made_public(
            pre,
            m.source,
            m.offer@,
            m.node_id,
            m.public_addr,
            m.arbitrating_addr,
            m.accordant_addr,
            Notice::PeerdLaunched(pid),
            post,
            step,
        ),
{
    if let Ok(pid) = pid {
        lemma_register(pre, m, Notice::PeerdLaunched(pid), post, step);
    }
}

/// A request to make an offer, as it came from a client or with the keys that the wallet gave.
pub open spec fn asked_to_make(
    pre: State,
    request: Request,
    req: ProtoPublicOffer,
) -> bool {
    match request {
        Request::MakeOffer(r) => r == req,
        Request::Keys { secret_key, public_key, id } => pre.pending_requests.contains_key(id) && (
        pre.pending_requests[id].0 matches Request::MakeOffer(r) && req == (ProtoPublicOffer {
            peer_secret_key: Some(secret_key),
            peer_public_key: Some(public_key),
            ..r
        })),
        _ => false,
    }
}

/// Takers reach a maker where the maker wants to be reached: whichever way an offer comes to be
/// registered by a request to make it, with keys given at once or by the wallet, and at an address
/// that was listened at or by a peer daemon that was launched, the public offer that is new has the
/// terms of the request and the socket of its public address. Its text is the one to share, and
/// is that of the terms made public with the key of the listener and that socket; the maker is
/// to be paid at the addresses of the request.
pub proof fn law_shared_offer_names_the_public_address(
    pre: State,
    source: ServiceId,
    request: Request,
    req: ProtoPublicOffer,
    now: Moment,
    mid: State,
    step: Step,
    pid: u32,
    post: State,
    end: Step,
    text: Seq<char>,
)
    requires
        asked_to_make(pre, request, req),
        forall|o: OfferId| #[trigger]
            pre.listens.contains_key(o) ==> pre.node_ids.contains_key(o),
        State::handle(pre, ServiceBus::Ctl, source, request, now, mid, step),
        if step is Launch {
            State::launched(mid, step->Launch_1, Ok(pid), post, end)
        } else {
            post == mid && end == step
        },
    ensures
        forall|t: Seq<char>| #[trigger]
            pre.public_offers.contains_key(t) ==> post.public_offers.contains_key(t)
                && post.public_offers[t] == pre.public_offers[t],
        post.public_offers.contains_key(text) && !pre.public_offers.contains_key(text) ==> {
            let shared = post.public_offers[text];
            &&& shared.peer_address == socket_in(req.public_addr)
            &&& shared.offer == req.offer@
            &&& post.node_ids.contains_key(req.offer@.uuid)
            &&& shared.node_id == post.node_ids[req.offer@.uuid]
            &&& post.listens.contains_key(req.offer@.uuid)
            &&& post.listens[req.offer@.uuid] == req.bind_addr
            &&& shared.text@ == text
            &&& shared_text(req.offer@, shared.node_id, req.public_addr) == Some(text)
            &&& post.arb_addrs.contains_key(text)
            &&& post.arb_addrs[text] == req.arbitrating_addr
            &&& end is Fail || {
                &&& end matches Step::Send(_, AfterSend::Reports(rest))
                &&& rest@.len() == 1
                &&& rest@[0].request == Request::Success(Some(Notice::ShareOffer(shared.text)))
                &&& post.acc_addrs.contains_key(text)
                &&& post.acc_addrs[text].text == req.accordant_addr
            }
        },
{
    let (s, from) = match request {
        Request::Keys { id, .. } => (
            State { pending_requests: pre.pending_requests.remove(id), ..pre },
            pre.pending_requests[id].1,
        ),
        _ => (pre, source),
    };
    assert(State::handle(s, ServiceBus::Ctl, from, Request::MakeOffer(req), now, mid, step));
    law_offer_is_listened_for(s, from, req, now, mid, step);
    if let Step::Launch(_, AfterLaunch::Listener(m)) = step {
        law_offer_with_a_listener_is_made_public(mid, m, Ok(pid), post, end);
    }
}

/// Keys that the wallet gives are put into the request that waits for them under their identifier,
/// and the request is then handled as if it had come with them from whoever sent it. Keys that
/// nothing waits for are ignored.
pub proof fn law_keys_carry_the_request_on(
    pre: State,
    source: ServiceId,
    sk: SecretKey,
    pk: PublicKey,
    id: RequestId,
    now: Moment,
    post: State,
    step: Step,
)
    ensures
        ({
            let given = State::handle(
                pre,
                ServiceBus::Ctl,
                source,
                Request::Keys { secret_key: sk, public_key: pk, id },
                now,
                post,
                step,
            );
            let s = State { pending_requests: pre.pending_requests.remove(id), ..pre };
            let from = pre.pending_requests[id].1;
            if !pre.pending_requests.contains_key(id) {
                given <==> post == pre && step is Done
            } else {
                match pre.pending_requests[id].0 {
                    Request::MakeOffer(req) => given <==> State::handle(
                        s,
                        ServiceBus::Ctl,
                        from,
                        Request::MakeOffer(
                            ProtoPublicOffer {
                                peer_secret_key: Some(sk),
                                peer_public_key: Some(pk),
                                ..req
                            },
                        ),
                        now,
                        post,
                        step,
                    ),
                    Request::TakeOffer(req) => given <==> State::handle(
                        s,
                        ServiceBus::Ctl,
                        from,
                        Request::TakeOffer(PubOffer { peer_secret_key: Some(sk), ..req }),
                        now,
                        post,
                        step,
                    ),
                    _ => given <==> post == s && step == Step::Fail(Error::UnexpectedPending),
                }
            }
        }),
{
}

/// The offer is registered and handed to the wallet as it came, but for the secret key. Whoever
/// asked is told how its maker is connected, and that the offer is registered.
pub open spec fn takes_on(
    pre: State,
    source: ServiceId,
    req: PubOffer,
    first: Notice,
    post: State,
    step: Step,
) -> bool {
    let offer = req.public_offer@;
    &&& post == (State { public_offers: pre.public_offers.insert(offer.text@, offer), ..pre })
    &&& step matches Step::Send(e, AfterSend::Reports(rest))
    &&& e.bus == ServiceBus::Ctl
    &&& e.source == pre.identity
    &&& e.dest == ServiceId::Wallet
    &&& e.request matches Request::TakeOffer(take)
    &&& take.public_offer == req.public_offer
    &&& take.external_address == req.external_address
    &&& take.internal_address == req.internal_address
    &&& take.peer_secret_key is None
    &&& rest@.len() == 2
    &&& rest@[0] == (Report { to: source, request: Request::Progress(first) })
    &&& rest@[1] == (Report {
        to: source,
        request: Request::Success(Some(Notice::OfferRegistered(offer.offer.uuid))),
    })
}

/// An offer is taken unless it is registered or was taken before, in which case nothing changes.
/// It is taken through the node that it names: at once if that is connected, else after a peer
/// daemon was launched to connect to it with the key of the request; without a key, the wallet
/// is asked for keys.
pub proof fn law_offer_is_taken_through_the_node_it_names(
    pre: State,
    source: ServiceId,
    req: PubOffer,
    now: Moment,
    post: State,
    step: Step,
)
    requires
        State::handle(pre, ServiceBus::Ctl, source, Request::TakeOffer(req), now, post, step),
    ensures
        ({
            let offer = req.public_offer@;
            let node = NodeAddr {
                node_id: offer.node_id,
                remote_addr: RemoteSocketAddr::Ftcp(offer.peer_address),
            };
            if pre.public_offers.contains_key(offer.text@) || pre.consumed_offers.contains_key(
                offer.offer.uuid,
            ) {
                &&& post == pre
                &&& swap_laws::answers(
                    step,
                    pre.identity,
                    source,
                    Request::Failure { code: 1, info: Notice::OfferTaken(offer.text) },
                )
            } else if pre.connections.contains(node) {
                takes_on(pre, source, req, Notice::AlreadyConnected(node), post, step)
            } else {
                match req.peer_secret_key {
                    Some(sk) => {
                        &&& post == pre
                        &&& step matches Step::Watch(task, after)
                        &&& swap_laws::runs(
                            task,
                            Daemon::Peerd,
                            seq![
                                "--connect"@,
                                swap_laws::node_words(node),
                                "--peer-secret-key"@,
                                ident::hex32(sk.hi, sk.lo),
                                "--token"@,
                                pre.wallet_token@,
                            ],
                        )
                        &&& after.source == source
                        &&& after.peer == node
                        &&& after.take == req
                    },
                    None => asks_for_keys(pre, source, Request::TakeOffer(req), post, step),
                }
            }
        }),
{
    let offer = req.public_offer@;
    let node = swap_laws::named_node(offer);
    if let Step::Watch(task, _) = step {
        let sk = req.peer_secret_key->0;
        swap_laws::lemma_runs(
            task,
            Daemon::Peerd,
            launch::connect_words(node, sk, pre.wallet_token@),
        );
    } else if !pre.public_offers.contains_key(offer.text@) && !pre.consumed_offers.contains_key(
        offer.offer.uuid,
    ) && !pre.connections.contains(node) {
        let id = choose|id: RequestId| #[trigger]
            State::await_keys(pre, id, source, Request::TakeOffer(req), post, step);
        assert(swap_laws::sends(
            step,
            ServiceBus::Ctl,
            ServiceId::Farcasterd,
            ServiceId::Wallet,
            Request::GetKeys { token: pre.wallet_token, id },
        ));
    }
}

/// A peer daemon that was launched to take an offer and still runs takes it on, and its hello is
/// awaited for whoever asked. If it could not be launched or has ended, whoever asked is told why,
/// and nothing changes.
pub proof fn law_watched_peer_takes_the_offer(
    pre: State,
    after: AfterWatch,
    result: Watched,
    post: State,
    step: Step,
)
    requires
        State::watched(pre, after, result, post, step),
    ensures
        match result {
            Watched::Running(pid) => takes_on(
                State {
                    spawning_services: pre.spawning_services.insert(
                        ServiceId::Peer(after.peer),
                        after.source,
                    ),
                    ..pre
                },
                after.source,
                after.take,
                Notice::PeerdLaunched(pid),
                post,
                step,
            ),
            Watched::Exited => post == pre && swap_laws::answers(
                step,
                pre.identity,
                after.source,
                Request::Failure { code: 1, info: Notice::Trouble(Error::InvalidEndpoint) },
            ),
            Watched::Lost(words) => post == pre && swap_laws::answers(
                step,
                pre.identity,
                after.source,
                Request::Failure { code: 1, info: Notice::Trouble(Error::Launch(words)) },
            ),
        },
{
}

/// Whoever takes an offer is told when the peer daemon that was launched for it says hello.
pub proof fn law_taker_is_told_when_connected(
    pre: State,
    after: AfterWatch,
    pid: u32,
    mid: State,
    step: Step,
    now: Moment,
    post: State,
    end: Step,
)
    requires
        State::watched(pre, after, Watched::Running(pid), mid, step),
        State::handle(
            mid,
            ServiceBus::Ctl,
            ServiceId::Peer(after.peer),
            Request::Hello,
            now,
            post,
            end,
        ),
        !pre.making_swaps.contains_key(ServiceId::Peer(after.peer)),
        !pre.taking_swaps.contains_key(ServiceId::Peer(after.peer)),
    ensures
        post.connections.contains(after.peer),
        swap_laws::answers(
            end,
            pre.identity,
            after.source,
            Request::Success(Some(Notice::ConnectedTo(ServiceId::Peer(after.peer)))),
        ),
{
    swap_laws::law_launcher_is_told_of_hello(
        mid,
        ServiceId::Peer(after.peer),
        now,
        post,
        end,
    );
}

/// The commitment is handed to the wallet in the name of the daemon that it came from, which is
/// kept as the one that a swap for the offer speaks through.
pub open spec fn hands_commitment_on(
    pre: State,
    source: ServiceId,
    offer: OfferId,
    commit: TakeCommit,
    post: State,
    step: Step,
) -> bool {
    &&& post == (State { peerd_ids: pre.peerd_ids.insert(offer, source), ..pre })
    &&& swap_laws::sends(
        step,
        ServiceBus::Msg,
        source,
        ServiceId::Wallet,
        Request::Protocol(Msg::TakerCommit(commit)),
    )
    &&& step->Send_1 is Finish
}

/// The wallet learns the Monero address that is kept for the public offer, and that is then kept
/// no longer; or, where none is kept, the commitment.
pub open spec fn tells_monero_address(
    pre: State,
    source: ServiceId,
    offer: OfferId,
    text: Seq<char>,
    commit: TakeCommit,
    post: State,
    step: Step,
) -> bool {
    if pre.acc_addrs.contains_key(text) {
        &&& post == (State { acc_addrs: pre.acc_addrs.remove(text), ..pre })
        &&& swap_laws::sends(
            step,
            ServiceBus::Msg,
            pre.identity,
            ServiceId::Wallet,
            Request::MoneroAddress(commit.swap_id, pre.acc_addrs[text]),
        )
        &&& step->Send_1 == (AfterSend::CommitForward { source, offer, commit })
    } else {
        hands_commitment_on(pre, source, offer, commit, post, step)
    }
}

/// What a text is read as: the text of an offer, or nothing.
pub open spec fn read_as(t: Seq<char>) -> Option<Seq<char>> {
    let bytes = vstd::utf8::encode_utf8(t);
    if bytes.len() < 6 || !vstd::utf8::is_char_boundary(bytes, 6) || (bytes.len() < 12
        && bytes.take(6) == seq![79u8, 102, 102, 101, 114, 58]) {
        None
    } else {
        match offer::offer_in(t) {
            Ok(own) => Some(own),
            Err(_) => None,
        }
    }
}

/// The words for why a text is not read as an offer: those of the reader, or none where the text is
/// cut off.
pub open spec fn not_read_because(t: Seq<char>) -> Option<Seq<char>> {
    let bytes = vstd::utf8::encode_utf8(t);
    if bytes.len() < 6 || !vstd::utf8::is_char_boundary(bytes, 6) || (bytes.len() < 12
        && bytes.take(6) == seq![79u8, 102, 102, 101, 114, 58]) {
        None
    } else {
        match offer::offer_in(t) {
            Ok(_) => None,
            Err(words) => Some(words),
        }
    }
}

/// A taker's commitment to an offer that is registered here reaches the wallet, after the addresses
/// that the maker gave for that offer: first Bitcoin, then Monero, each of them once. One to an
/// offer that is not registered is ignored, and one that names no offer fails.
pub proof fn law_commitment_reaches_the_wallet(
    pre: State,
    source: ServiceId,
    commit: TakeCommit,
    now: Moment,
    post: State,
    step: Step,
)
    requires
        State::handle(
            pre,
            ServiceBus::Msg,
            source,
            Request::Protocol(Msg::TakerCommit(commit)),
            now,
            post,
            step,
        ),
    ensures
        match read_as(commit.public_offer@) {
            None => {
                &&& post == pre
                &&& step matches Step::Fail(Error::OfferFormat(told))
                &&& match not_read_because(commit.public_offer@) {
                    Some(words) => told matches Some(w) && w@ == words,
                    None => told is None,
                }
            },
            Some(text) => if !pre.public_offers.contains_key(text) {
                post == pre && step is Done
            } else {
                let offer = pre.public_offers[text].offer.uuid;
                if pre.arb_addrs.contains_key(text) {
                    &&& post == (State { arb_addrs: pre.arb_addrs.remove(text), ..pre })
                    &&& swap_laws::sends(
                        step,
                        ServiceBus::Msg,
                        pre.identity,
                        ServiceId::Wallet,
                        Request::BitcoinAddress(commit.swap_id, pre.arb_addrs[text]),
                    )
                    &&& step->Send_1 matches AfterSend::CommitAccordant {
                        source: s,
                        offer: o,
                        text: t,
                        commit: c,
                    }
                    &&& s == source
                    &&& o == offer
                    &&& t@ == text
                    &&& c == commit
                } else {
                    tells_monero_address(pre, source, offer, text, commit, post, step)
                }
            },
        },
{
    let bytes = vstd::utf8::encode_utf8(commit.public_offer@);
    if bytes.len() >= 6 {
        let front = seq![79u8, 102, 102, 101, 114, 58];
        assert(offer::has_prefix(bytes) <==> bytes.take(6) =~= front) by {
            if bytes.take(6) =~= front {
                assert(bytes.take(6)[0] == bytes[0] && bytes.take(6)[1] == bytes[1]);
                assert(bytes.take(6)[2] == bytes[2] && bytes.take(6)[3] == bytes[3]);
                assert(bytes.take(6)[4] == bytes[4] && bytes.take(6)[5] == bytes[5]);
            }
        }
    }
}

/// After the wallet learned an address, it learns what comes next of the same commitment; if it
/// could not be told, the commitment is dropped.
pub proof fn law_commitment_goes_on(
    pre: State,
    source: ServiceId,
    offer: OfferId,
    text: String,
    commit: TakeCommit,
    result: Result<(), String>,
    post: State,
    step: Step,
)
    ensures
        State::sent(
            pre,
            AfterSend::CommitAccordant { source, offer, text, commit },
            result,
            post,
            step,
        ) ==> {
            &&& result is Ok ==> tells_monero_address(
                pre,
                source,
                offer,
                text@,
                commit,
                post,
                step,
            )
            &&& result matches Err(words) ==> post == pre && step == Step::Fail(Error::Send(words))
        },
        State::sent(
            pre,
            AfterSend::CommitForward { source, offer, commit },
            result,
            post,
            step,
        ) ==> {
            &&& result is Ok ==> hands_commitment_on(pre, source, offer, commit, post, step)
            &&& result matches Err(words) ==> post == pre && step == Step::Fail(Error::Send(words))
        },
{
}

} // verus!
