//! The decisions of the daemon: what it passes between the peer and the other daemons, and how it
//! keeps the connection alive.

use crate::addr::NodeAddr;
use crate::random;
use crate::rpc::{Error, Init, Messages, Request};
use crate::service::{Envelope, ServiceBus, ServiceId};
use crate::table::Table;
use vstd::prelude::*;

verus! {

/// Which messages of the peer a daemon gets.
#[derive(Clone, Copy, PartialEq, Eq, Structural, Debug, Hash)]
pub struct MessageFilter {}

/// The end of the bridge at the thread that listens to the peer.
#[derive(Clone, Copy, PartialEq, Eq, Structural, Debug, Hash)]
pub struct BridgeHandler;

/// The thread that listens to the peer.
#[derive(Clone, Copy, PartialEq, Eq, Structural, Debug, Hash)]
pub struct ListenerRuntime {
    pub identity: ServiceId,
    pub bridge: BridgeHandler,
}

/// The daemon.
pub struct Runtime {
    pub identity: ServiceId,
    pub routing: Table<ServiceId, MessageFilter>,
    /// Whether this side is to start the connection, and has not yet.
    pub connect: bool,
    /// The size of the pong that is awaited.
    pub awaited_pong: Option<u16>,
}

/// The state of the daemon.
#[verifier::ext_equal]
pub struct PeerState {
    pub identity: ServiceId,
    pub routing: Map<ServiceId, MessageFilter>,
    pub connect: bool,
    pub awaited_pong: Option<u16>,
}

/// What a pong is, given what is awaited.
#[derive(Clone, Copy, PartialEq, Eq, Structural, Debug, Hash)]
pub enum PongVerdict {
    /// None is awaited.
    Unexpected,
    /// One of another size is awaited.
    WrongSize,
    /// It is the one that is awaited.
    Expected,
}

/// What comes after a message was sent to the peer.
#[derive(Clone, Copy, PartialEq, Eq, Structural, Debug, Hash)]
pub enum AfterMessage {
    /// Nothing.
    Finish,
    /// The connection was started.
    Connected,
    /// A pong of this size is awaited.
    Pinged(u16),
}

/// What the daemon asks of the world.
#[derive(Debug)]
pub enum Step {
    /// Nothing: the request was carried out.
    Done,
    /// Nothing: the request failed.
    Fail(Error),
    /// Send a message to the peer.
    Message(Messages, AfterMessage),
    /// Send a request over a bus, which ends what was going on.
    Send(Envelope),
}

impl View for Runtime {
    type V = PeerState;

    open spec fn view(&self) -> PeerState {
        PeerState {
            identity: self.identity,
            routing: self.routing@,
            connect: self.connect,
            awaited_pong: self.awaited_pong,
        }
    }
}

/// Starts the daemon for a node: gives the thread that listens to the peer, and the daemon as it
/// is before any request.
pub fn run(id: NodeAddr, connect: bool) -> (r: (ListenerRuntime, Runtime))
    ensures
        r.0.identity == ServiceId::Peer(id),
        r.1@ == (PeerState {
            identity: ServiceId::Peer(id),
            routing: Map::empty(),
            connect,
            awaited_pong: None,
        }),
{
    let identity = ServiceId::Peer(id);
    (
        ListenerRuntime { identity, bridge: BridgeHandler },
        Runtime { identity, routing: Table::new(), connect, awaited_pong: None },
    )
}

impl BridgeHandler {
    /// Who the end of the bridge is.
    pub fn identity(&self) -> (id: ServiceId)
        ensures
            id == ServiceId::Loopback,
    {
        ServiceId::Loopback
    }

    /// The bridge gets no replies; one that comes is ignored.
    pub fn handle(&mut self, bus: ServiceBus, addr: ServiceId, request: Request) -> (r: Result<
        (),
        Error,
    >)
        ensures
            r == Ok::<(), Error>(()),
            *final(self) == *old(self),
    {
        Ok(())
    }

    /// An error is passed on.
    pub fn handle_err(&mut self, err: Error) -> (r: Result<(), Error>)
        ensures
            r == Err::<(), Error>(err),
            *final(self) == *old(self),
    {
        Err(err)
    }
}

impl ListenerRuntime {
    /// A request over the bridge to the daemon.
    pub open spec fn over_bridge(self, request: Request) -> Envelope {
        Envelope {
            bus: ServiceBus::Bridge,
            source: ServiceId::Loopback,
            dest: self.identity,
            request,
        }
    }

    /// Sends a request over the bridge to the daemon.
    fn send_over_bridge(&mut self, request: Request) -> (e: Envelope)
        ensures
            e == old(self).over_bridge(request),
            *final(self) == *old(self),
    {
        Envelope {
            bus: ServiceBus::Bridge,
            source: self.bridge.identity(),
            dest: self.identity,
            request,
        }
    }

    /// Every message of the peer goes to the daemon.
    pub fn handle(&mut self, message: Messages) -> (step: Step)
        ensures
            step == Step::Send(old(self).over_bridge(Request::PeerMessage(message))),
            *final(self) == *old(self),
    {
        Step::Send(self.send_over_bridge(Request::PeerMessage(message)))
    }

    /// When the peer is silent for too long, the daemon is to ping it. Any other error is passed
    /// on.
    pub fn handle_err(&mut self, err: Error) -> (step: Step)
        ensures
            step == (if err == Error::TimedOut {
                Step::Send(old(self).over_bridge(Request::PingPeer))
            } else {
                Step::Fail(err)
            }),
            *final(self) == *old(self),
    {
        match err {
            Error::TimedOut => Step::Send(self.send_over_bridge(Request::PingPeer)),
            _ => Step::Fail(err),
        }
    }
}

/// The message that starts a connection says nothing.
pub open spec fn is_empty_init(init: Init) -> bool {
    &&& init.global_features@.len() == 0
    &&& init.local_features@.len() == 0
    &&& init.assets@.len() == 0
    &&& init.unknown_tlvs@.len() == 0
}

impl PeerState {
    /// The daemon is ready. If it is to start the connection, it does.
    pub open spec fn on_ready(pre: PeerState, post: PeerState, step: Step) -> bool {
        &&& post == pre
        &&& if pre.connect {
            step matches Step::Message(Messages::Init(init), AfterMessage::Connected)
                && is_empty_init(init)
        } else {
            step is Done
        }
    }

    /// A request over the bus of the peer protocol: a message for the peer.
    pub open spec fn handle_rpc_msg(
        pre: PeerState,
        request: Request,
        post: PeerState,
        step: Step,
    ) -> bool {
        &&& post == pre
        &&& step == match request {
            Request::PeerMessage(message) => Step::Message(message, AfterMessage::Finish),
            _ => Step::Fail(Error::NotSupported(ServiceBus::Msg, request.kind())),
        }
    }

    /// A request over the control bus: none is supported.
    pub open spec fn handle_rpc_ctl(
        pre: PeerState,
        request: Request,
        post: PeerState,
        step: Step,
    ) -> bool {
        post == pre && step == Step::Fail(Error::NotSupported(ServiceBus::Ctl, request.kind()))
    }

    /// A request over the bridge: what the thread that listens to the peer has to say.
    pub open spec fn handle_bridge(
        pre: PeerState,
        request: Request,
        post: PeerState,
        step: Step,
    ) -> bool {
        match request {
            Request::PingPeer => PeerState::ping(pre, post, step),
            Request::PeerMessage(Messages::Ping { ignored: _, pong_size }) => PeerState::pong(
                pre,
                pong_size,
                post,
                step,
            ),
            Request::PeerMessage(Messages::Pong(_)) => {
                &&& post == (PeerState { awaited_pong: None, ..pre })
                &&& step is Done
            },
            Request::PeerMessage(Messages::OpenChannel(_)) => {
                &&& post == pre
                &&& step == Step::Send(
                    Envelope {
                        bus: ServiceBus::Msg,
                        source: pre.identity,
                        dest: ServiceId::Lnpd,
                        request,
                    },
                )
            },
            Request::PeerMessage(Messages::AcceptChannel { temporary_channel_id, terms: _ }) => {
                &&& post == pre
                &&& step == Step::Send(
                    Envelope {
                        bus: ServiceBus::Msg,
                        source: pre.identity,
                        dest: ServiceId::Channel(temporary_channel_id),
                        request,
                    },
                )
            },
            Request::PeerMessage(_) => post == pre && step is Done,
            _ => post == pre && step == Step::Fail(
                Error::NotSupported(ServiceBus::Bridge, request.kind()),
            ),
        }
    }

    /// The peer is pinged with given noise and asked for a pong of a given size, unless one is
    /// awaited.
    pub open spec fn ping_with(
        pre: PeerState,
        noise: Seq<u8>,
        pong_size: u16,
        post: PeerState,
        step: Step,
    ) -> bool {
        &&& post == pre
        &&& if pre.awaited_pong is Some {
            step == Step::Fail(Error::NotResponding)
        } else {
            step matches Step::Message(
                Messages::Ping { ignored, pong_size: size },
                AfterMessage::Pinged(awaited),
            ) && ignored@ == noise && size == pong_size && awaited == pong_size
        }
    }

    /// The peer is pinged with some noise and asked for a pong of some size, each of 4 bytes or
    /// more and fewer than 32.
    pub open spec fn ping(pre: PeerState, post: PeerState, step: Step) -> bool {
        exists|noise: Seq<u8>, pong_size: u16| #[trigger]
            PeerState::ping_with(pre, noise, pong_size, post, step) && 4 <= noise.len() < 32 && 4
                <= pong_size < 32
    }

    /// The peer gets a pong of the size it asked for.
    pub open spec fn pong(pre: PeerState, pong_size: u16, post: PeerState, step: Step) -> bool {
        &&& post == pre
        &&& step matches Step::Message(Messages::Pong(noise), AfterMessage::Finish)
        &&& noise@.len() == pong_size
    }

    /// A request over any bus.
    pub open spec fn handle(
        pre: PeerState,
        bus: ServiceBus,
        request: Request,
        post: PeerState,
        step: Step,
    ) -> bool {
        match bus {
            ServiceBus::Msg => PeerState::handle_rpc_msg(pre, request, post, step),
            ServiceBus::Ctl => PeerState::handle_rpc_ctl(pre, request, post, step),
            ServiceBus::Bridge => PeerState::handle_bridge(pre, request, post, step),
        }
    }

    /// A message was sent to the peer, or could not be sent.
    pub open spec fn sent(
        pre: PeerState,
        after: AfterMessage,
        result: Result<(), String>,
        post: PeerState,
        step: Step,
    ) -> bool {
        match result {
            Ok(_) => {
                &&& step is Done
                &&& post == match after {
                    AfterMessage::Finish => pre,
                    AfterMessage::Connected => PeerState { connect: false, ..pre },
                    AfterMessage::Pinged(size) => PeerState { awaited_pong: Some(size), ..pre },
                }
            },
            Err(words) => post == pre && step == Step::Fail(Error::Connection(words)),
        }
    }
}

impl Runtime {
    /// Who the daemon is.
    pub fn identity(&self) -> (id: ServiceId)
        ensures
            id == self@.identity,
    {
        self.identity
    }

    /// The daemon is ready.
    pub fn on_ready(&mut self) -> (step: Step)
        ensures
            PeerState::on_ready(old(self)@, final(self)@, step),
    {
        if self.connect {
            Step::Message(
                Messages::Init(
                    Init {
                        global_features: Vec::new(),
                        local_features: Vec::new(),
                        assets: Vec::new(),
                        unknown_tlvs: Vec::new(),
                    },
                ),
                AfterMessage::Connected,
            )
        } else {
            Step::Done
        }
    }

    /// Handles a request over any bus.
    pub fn handle(&mut self, bus: ServiceBus, source: ServiceId, request: Request) -> (step: Step)
        ensures
            PeerState::handle(old(self)@, bus, request, final(self)@, step),
    {
        match bus {
            ServiceBus::Msg => self.handle_rpc_msg(source, request),
            ServiceBus::Ctl => self.handle_rpc_ctl(source, request),
            ServiceBus::Bridge => self.handle_bridge(source, request),
        }
    }

    /// An error of the bus is not passed on, since that would end the daemon; it has been
    /// reported where it came up.
    pub fn handle_err(&mut self, err: Error) -> (r: Result<(), Error>)
        ensures
            r == Ok::<(), Error>(()),
            *final(self) == *old(self),
    {
        Ok(())
    }

    /// Handles a request over the bus of the peer protocol.
    pub fn handle_rpc_msg(&mut self, _source: ServiceId, request: Request) -> (step: Step)
        ensures
            PeerState::handle_rpc_msg(old(self)@, request, final(self)@, step),
    {
        match request {
            Request::PeerMessage(message) => Step::Message(message, AfterMessage::Finish),
            other => Step::Fail(Error::NotSupported(ServiceBus::Msg, other.get_type())),
        }
    }

    /// Handles a request over the control bus.
    pub fn handle_rpc_ctl(&mut self, _source: ServiceId, request: Request) -> (step: Step)
        ensures
            PeerState::handle_rpc_ctl(old(self)@, request, final(self)@, step),
    {
        Step::Fail(Error::NotSupported(ServiceBus::Ctl, request.get_type()))
    }

    /// Handles a request over the bridge.
    pub fn handle_bridge(&mut self, _source: ServiceId, request: Request) -> (step: Step)
        ensures
            PeerState::handle_bridge(old(self)@, request, final(self)@, step),
    {
        match request {
            Request::PingPeer => self.ping(),
            Request::PeerMessage(Messages::Ping { ignored: _, pong_size }) => self.pong(pong_size),
            Request::PeerMessage(Messages::Pong(_)) => {
                self.awaited_pong = None;
                Step::Done
            },
            Request::PeerMessage(Messages::OpenChannel(terms)) => Step::Send(
                Envelope {
                    bus: ServiceBus::Msg,
                    source: self.identity,
                    dest: ServiceId::Lnpd,
                    request: Request::PeerMessage(Messages::OpenChannel(terms)),
                },
            ),
            Request::PeerMessage(Messages::AcceptChannel { temporary_channel_id, terms }) => {
                Step::Send(
                    Envelope {
                        bus: ServiceBus::Msg,
                        source: self.identity,
                        dest: ServiceId::Channel(temporary_channel_id),
                        request: Request::PeerMessage(
                            Messages::AcceptChannel { temporary_channel_id, terms },
                        ),
                    },
                )
            },
            Request::PeerMessage(_) => Step::Done,
            other => Step::Fail(Error::NotSupported(ServiceBus::Bridge, other.get_type())),
        }
    }

    /// Judges a pong by what is awaited. The daemon takes every pong for an answer; this is for
    /// the log.
    pub fn judge_pong(&self, noise: &Vec<u8>) -> (v: PongVerdict)
        ensures
            v == match self@.awaited_pong {
                None => PongVerdict::Unexpected,
                Some(size) => if size == noise@.len() {
                    PongVerdict::Expected
                } else {
                    PongVerdict::WrongSize
                },
            },
    {
        match self.awaited_pong {
            None => PongVerdict::Unexpected,
            Some(size) => {
                if size as usize == noise.len() {
                    PongVerdict::Expected
                } else {
                    PongVerdict::WrongSize
                }
            },
        }
    }

    /// Pings the peer with given noise, and asks it for a pong of a given size.
    pub fn ping_with(&mut self, noise: Vec<u8>, pong_size: u16) -> (step: Step)
        ensures
            PeerState::ping_with(old(self)@, noise@, pong_size, final(self)@, step),
    {
        if self.awaited_pong.is_some() {
            return Step::Fail(Error::NotResponding);
        }
        Step::Message(
            Messages::Ping { ignored: noise, pong_size },
            AfterMessage::Pinged(pong_size),
        )
    }

    /// Pings the peer with random noise, and asks it for a pong of a random size.
    fn ping(&mut self) -> (step: Step)
        ensures
            PeerState::ping(old(self)@, final(self)@, step),
    {
        let len: u16 = random::random_size(4, 32);
        let noise = random::noise(len);
        let pong_size: u16 = random::random_size(4, 32);
        self.ping_with(noise, pong_size)
    }

    /// Answers a ping with random noise.
    fn pong(&mut self, pong_size: u16) -> (step: Step)
        ensures
            PeerState::pong(old(self)@, pong_size, final(self)@, step),
    {
        Step::Message(Messages::Pong(random::noise(pong_size)), AfterMessage::Finish)
    }

    /// A message was sent to the peer, or could not be sent.
    pub fn sent(&mut self, after: AfterMessage, result: Result<(), String>) -> (step: Step)
        ensures
            PeerState::sent(old(self)@, after, result, final(self)@, step),
    {
        match result {
            Ok(_) => {},
            Err(words) => {
                return Step::Fail(Error::Connection(words));
            },
        }
        match after {
            AfterMessage::Finish => {},
            AfterMessage::Connected => {
                self.connect = false;
            },
            AfterMessage::Pinged(size) => {
                self.awaited_pong = Some(size);
            },
        }
        Step::Done
    }
}

} // verus!
