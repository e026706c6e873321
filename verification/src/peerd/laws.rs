//! What holds of the daemon over more than one decision.

use crate::addr::NodeAddr;
use crate::ident::ChannelId;
use crate::peerd::runtime::{
    self, AfterMessage, BridgeHandler, ListenerRuntime, PeerState, PongVerdict, Runtime, Step,
};
use crate::rpc::{Error, Messages, Request};
use crate::service::{Envelope, ServiceBus, ServiceId};
use vstd::prelude::*;

verus! {

/// One pong is awaited at a time: after a ping was sent, another one is not sent, and the peer is
/// taken for one that does not respond.
pub proof fn law_one_pong_at_a_time(
    pre: PeerState,
    s1: PeerState,
    step: Step,
    s2: PeerState,
    sent: Step,
    post: PeerState,
    end: Step,
)
    requires
        PeerState::ping(pre, s1, step),
        step is Message,
        PeerState::sent(s1, step->Message_1, Ok(()), s2, sent),
        PeerState::ping(s2, post, end),
    ensures
        s2.awaited_pong is Some,
        post == s2,
        end == Step::Fail(Error::NotResponding),
{
}

/// Any pong ends the wait, so that the next ping is sent.
pub proof fn law_pong_ends_the_wait(
    pre: PeerState,
    noise: Vec<u8>,
    mid: PeerState,
    step: Step,
    post: PeerState,
    end: Step,
)
    requires
        PeerState::handle(
            pre,
            ServiceBus::Bridge,
            Request::PeerMessage(Messages::Pong(noise)),
            mid,
            step,
        ),
        PeerState::handle(mid, ServiceBus::Bridge, Request::PingPeer, post, end),
    ensures
        mid.awaited_pong is None,
        end is Message,
        end->Message_0 is Ping,
{
}

/// A pong is awaited only after a ping was sent: no request starts a wait.
pub proof fn law_no_request_starts_a_wait(
    pre: PeerState,
    bus: ServiceBus,
    request: Request,
    post: PeerState,
    step: Step,
)
    requires
        PeerState::handle(pre, bus, request, post, step),
    ensures
        post.awaited_pong == pre.awaited_pong || post.awaited_pong is None,
        post.identity == pre.identity,
        post.connect == pre.connect,
        post.routing == pre.routing,
{
}

/// A ping that could not be sent is not waited for.
pub proof fn law_lost_ping_is_not_waited_for(
    pre: PeerState,
    mid: PeerState,
    step: Step,
    words: String,
    post: PeerState,
    end: Step,
)
    requires
        PeerState::ping(pre, mid, step),
        step is Message,
        PeerState::sent(mid, step->Message_1, Err(words), post, end),
    ensures
        post == pre,
        end == Step::Fail(Error::Connection(words)),
{
}

/// The peer is answered a ping with a pong of the size it asked for, which changes nothing.
pub proof fn law_ping_is_answered(
    pre: PeerState,
    ignored: Vec<u8>,
    pong_size: u16,
    post: PeerState,
    step: Step,
)
    requires
        PeerState::handle(
            pre,
            ServiceBus::Bridge,
            Request::PeerMessage(Messages::Ping { ignored, pong_size }),
            post,
            step,
        ),
    ensures
        post == pre,
        step matches Step::Message(Messages::Pong(noise), AfterMessage::Finish) && noise@.len()
            == pong_size,
{
}

/// The connection is started once: after the first message was sent, the daemon does not send it
/// again.
pub proof fn law_connection_starts_once(
    pre: PeerState,
    s1: PeerState,
    step: Step,
    s2: PeerState,
    sent: Step,
    post: PeerState,
    end: Step,
)
    requires
        pre.connect,
        PeerState::on_ready(pre, s1, step),
        PeerState::sent(s1, step->Message_1, Ok(()), s2, sent),
        PeerState::on_ready(s2, post, end),
    ensures
        step is Message,
        step->Message_0 is Init,
        !s2.connect,
        post == s2,
        end is Done,
{
}

/// A message that a daemon hands over for the peer, of whatever kind, is sent to the peer as it is.
/// Once it was sent nothing more comes of it, and a message that could not be sent is not sent
/// again.
pub proof fn law_message_is_sent_to_the_peer(
    pre: PeerState,
    message: Messages,
    mid: PeerState,
    step: Step,
    result: Result<(), String>,
    post: PeerState,
    end: Step,
)
    requires
        PeerState::handle(pre, ServiceBus::Msg, Request::PeerMessage(message), mid, step),
        PeerState::sent(mid, step->Message_1, result, post, end),
    ensures
        step is Message,
        step->Message_0 == message,
        mid == pre,
        post == pre,
        result is Ok ==> end is Done,
        result matches Err(words) ==> end == Step::Fail(Error::Connection(words)),
{
}

/// What a daemon hands over reaches the peer if and only if it is a message for it. A request that
/// holds none is refused, and so is every request over the control bus.
pub proof fn law_only_messages_reach_the_peer(
    pre: PeerState,
    bus: ServiceBus,
    request: Request,
    post: PeerState,
    step: Step,
)
    requires
        PeerState::handle(pre, bus, request, post, step),
        !(bus is Bridge),
    ensures
        post == pre,
        step is Message <==> bus is Msg && request is PeerMessage,
        !(step is Message) ==> step == Step::Fail(Error::NotSupported(bus, request.kind())),
{
}

/// What the thread that listens says goes to the daemon, over the bridge and as it is.
pub proof fn law_listener_speaks_over_the_bridge(listener: ListenerRuntime, request: Request)
    ensures
        listener.over_bridge(request).bus is Bridge,
        listener.over_bridge(request).source is Loopback,
        listener.over_bridge(request).dest == listener.identity,
        listener.over_bridge(request).request == request,
{
}

/// Every message of the peer reaches the daemon as it came, in the name of the thread that listens,
/// and the thread stays as it was.
pub proof fn law_listener_hands_messages_over(
    listener: &mut ListenerRuntime,
    message: Messages,
    step: Step,
)
    requires
        call_ensures(ListenerRuntime::handle, (listener, message), step),
    ensures
        step is Send,
        step->Send_0.bus is Bridge,
        step->Send_0.source is Loopback,
        step->Send_0.dest == old(listener).identity,
        step->Send_0.request == Request::PeerMessage(message),
        *final(listener) == *old(listener),
{
}

/// A peer that is silent for too long is to be pinged, and no other error leads to that: it is
/// passed on.
pub proof fn law_silent_peer_is_pinged(listener: &mut ListenerRuntime, err: Error, step: Step)
    requires
        call_ensures(ListenerRuntime::handle_err, (listener, err), step),
    ensures
        step is Send <==> err is TimedOut,
        err is TimedOut ==> {
            &&& step->Send_0.bus is Bridge
            &&& step->Send_0.source is Loopback
            &&& step->Send_0.dest == old(listener).identity
            &&& step->Send_0.request is PingPeer
        },
        !(err is TimedOut) ==> step == Step::Fail(err),
        *final(listener) == *old(listener),
{
}

/// The daemon of a node starts under the name of the node, awaits nothing and sends nothing by
/// itself, but for the start of the connection if it is told so. The thread that listens goes by
/// the same name.
pub proof fn law_daemon_starts_for_its_node(
    node: NodeAddr,
    connect: bool,
    r: (ListenerRuntime, Runtime),
)
    requires
        call_ensures(runtime::run, (node, connect), r),
    ensures
        r.0.identity == ServiceId::Peer(node),
        r.1.identity == ServiceId::Peer(node),
        r.1.connect == connect,
        r.1.awaited_pong is None,
        r.1.routing@.dom() == Set::<ServiceId>::empty(),
{
    assert(r.1@.identity == r.1.identity);
    assert(r.1@.routing == r.1.routing@);
}

/// A pong that comes unawaited is unexpected; one that is awaited is the expected one if and only
/// if it is of the size that was asked for.
pub proof fn law_pong_is_judged_by_its_size(d: &Runtime, noise: &Vec<u8>, v: PongVerdict)
    requires
        call_ensures(Runtime::judge_pong, (d, noise), v),
    ensures
        v is Unexpected <==> d.awaited_pong is None,
        v is Expected <==> d.awaited_pong is Some && d.awaited_pong->0 == noise@.len(),
{
}

/// The end of the bridge is the daemon itself. It ignores replies, and passes errors on.
pub proof fn law_bridge_takes_no_replies(
    bridge: &mut BridgeHandler,
    bus: ServiceBus,
    source: ServiceId,
    request: Request,
    r: Result<(), Error>,
    err: Error,
    passed: Result<(), Error>,
)
    requires
        call_ensures(BridgeHandler::handle, (bridge, bus, source, request), r),
        call_ensures(BridgeHandler::handle_err, (bridge, err), passed),
    ensures
        r is Ok,
        passed == Err::<(), Error>(err),
{
}

/// An error of the bus does not end the daemon.
pub proof fn law_error_of_the_bus_is_survived(
    d: &mut Runtime,
    err: Error,
    r: Result<(), Error>,
    id: ServiceId,
    bridge: &BridgeHandler,
)
    requires
        call_ensures(Runtime::handle_err, (d, err), r),
        call_ensures(BridgeHandler::identity, (bridge,), id),
    ensures
        r is Ok,
        *final(d) == *old(d),
        id is Loopback,
{
}

/// What is known of the daemon is all of it.
pub proof fn law_nothing_of_the_daemon_is_left_out(d: Runtime)
    ensures
        d@.identity == d.identity,
        d@.routing == d.routing@,
        d@.connect == d.connect,
        d@.awaited_pong == d.awaited_pong,
{
}

/// A channel that the peer offers is handed on as it came from the peer, in the name of this
/// daemon, to the daemon that opens channels.
pub proof fn law_offered_channel_is_handed_on(
    pre: PeerState,
    terms: Vec<u8>,
    post: PeerState,
    step: Step,
)
    requires
        PeerState::handle(
            pre,
            ServiceBus::Bridge,
            Request::PeerMessage(Messages::OpenChannel(terms)),
            post,
            step,
        ),
    ensures
        post == pre,
        step is Send,
        step->Send_0.bus is Msg,
        step->Send_0.source == pre.identity,
        step->Send_0.dest is Lnpd,
        step->Send_0.request == Request::PeerMessage(Messages::OpenChannel(terms)),
{
}

/// Of the other messages of the peer, a pong ends the wait for one and does nothing else, and the
/// first message of a connection and those that are not understood are ignored. A request over the
/// bridge that is no message, nor the order to ping, is refused.
pub proof fn law_other_messages_of_the_peer(
    pre: PeerState,
    request: Request,
    post: PeerState,
    step: Step,
)
    requires
        PeerState::handle(pre, ServiceBus::Bridge, request, post, step),
    ensures
        (request matches Request::PeerMessage(m) && m is Pong) ==> step is Done && post.awaited_pong
            is None && post.identity == pre.identity && post.connect == pre.connect && post.routing
            == pre.routing,
        (request matches Request::PeerMessage(m) && (m is Init || m is Other)) ==> step is Done
            && post == pre,
        !(request is PeerMessage || request is PingPeer) ==> post == pre && step == Step::Fail(
            Error::NotSupported(ServiceBus::Bridge, request.kind()),
        ),
{
}

/// The peer is pinged when no pong is awaited. The pong that is awaited from then on is of the size
/// that the ping asks for. Noise and pong are of four bytes or more, and fewer than 32.
pub proof fn law_awaited_pong_is_the_one_asked_for(
    pre: PeerState,
    mid: PeerState,
    step: Step,
    post: PeerState,
    end: Step,
)
    requires
        PeerState::handle(pre, ServiceBus::Bridge, Request::PingPeer, mid, step),
        step is Message ==> PeerState::sent(mid, step->Message_1, Ok(()), post, end),
    ensures
        mid == pre,
        step is Message <==> pre.awaited_pong is None,
        pre.awaited_pong is Some ==> step == Step::Fail(Error::NotResponding),
        step is Message ==> {
            &&& step->Message_0 matches Messages::Ping { ignored, pong_size }
            &&& 4 <= ignored@.len() < 32
            &&& 4 <= pong_size < 32
            &&& end is Done
            &&& post.awaited_pong == Some(pong_size)
            &&& post.identity == pre.identity
            &&& post.connect == pre.connect
            &&& post.routing == pre.routing
        },
{
}

/// A ping is sent with the noise and the size that it is given.
pub proof fn law_ping_holds_its_noise(
    pre: PeerState,
    noise: Seq<u8>,
    pong_size: u16,
    post: PeerState,
    step: Step,
)
    requires
        pre.awaited_pong is None,
        PeerState::ping_with(pre, noise, pong_size, post, step),
    ensures
        post == pre,
        step is Message,
        step->Message_0 is Ping,
        step->Message_0->ignored@ == noise,
        step->Message_0->pong_size == pong_size,
        step->Message_1 == AfterMessage::Pinged(pong_size),
{
}

/// A daemon that is to start the connection sends an empty first message, and is no longer to start
/// it once that was sent. If it could not be sent, it still is. A daemon that is not to start the
/// connection does nothing.
pub proof fn law_first_message_says_nothing(
    pre: PeerState,
    mid: PeerState,
    step: Step,
    result: Result<(), String>,
    post: PeerState,
    end: Step,
)
    requires
        PeerState::on_ready(pre, mid, step),
        pre.connect ==> PeerState::sent(mid, step->Message_1, result, post, end),
    ensures
        mid == pre,
        !pre.connect ==> step is Done,
        pre.connect ==> {
            &&& step is Message
            &&& step->Message_0 matches Messages::Init(init)
            &&& init.global_features@ == Seq::<u8>::empty()
            &&& init.local_features@ == Seq::<u8>::empty()
            &&& init.assets@ == Seq::<u8>::empty()
            &&& init.unknown_tlvs@ == Seq::<u8>::empty()
            &&& result is Ok ==> end is Done && !post.connect
            &&& result matches Err(words) ==> end == Step::Fail(Error::Connection(words))
            &&& result is Err ==> post.connect
            &&& post.identity == pre.identity
            &&& post.awaited_pong == pre.awaited_pong
            &&& post.routing == pre.routing
        },
{
}

/// An answer to an offered channel reaches the channel's daemon as it came from the peer: the
/// thread that listens hands it to the daemon, which hands it on in its own name.
pub proof fn law_accepted_channel_is_handed_on(
    listener: ListenerRuntime,
    pre: PeerState,
    channel: ChannelId,
    terms: Vec<u8>,
    post: PeerState,
    step: Step,
)
    requires
        PeerState::handle(
            pre,
            listener.over_bridge(
                Request::PeerMessage(
                    Messages::AcceptChannel { temporary_channel_id: channel, terms },
                ),
            ).bus,
            listener.over_bridge(
                Request::PeerMessage(
                    Messages::AcceptChannel { temporary_channel_id: channel, terms },
                ),
            ).request,
            post,
            step,
        ),
    ensures
        post == pre,
        step == Step::Send(
            Envelope {
                bus: ServiceBus::Msg,
                source: pre.identity,
                dest: ServiceId::Channel(channel),
                request: Request::PeerMessage(
                    Messages::AcceptChannel { temporary_channel_id: channel, terms },
                ),
            },
        ),
{
}

} // verus!
