use farcaster_node::addr::{InetSocketAddr, NodeAddr, RemoteSocketAddr};
use farcaster_node::ident::{ChannelId, PublicKey};
use farcaster_node::peerd::runtime::{
    run, AfterMessage, BridgeHandler, ListenerRuntime, PongVerdict, Runtime, Step,
};
use farcaster_node::rpc::{Error, Messages, Request, RequestType};
use farcaster_node::service::{ServiceBus, ServiceId};

fn node() -> NodeAddr {
    NodeAddr {
        node_id: PublicKey { odd: true, hi: 1, lo: 2 },
        remote_addr: RemoteSocketAddr::Ftcp(InetSocketAddr::IPv4 { ip: 1, port: 2 }),
    }
}

fn daemon(connect: bool) -> (ListenerRuntime, Runtime) {
    run(node(), connect)
}

#[test]
fn the_daemon_starts() {
    let (listener, runtime) = daemon(true);
    assert_eq!(listener.identity, ServiceId::Peer(node()));
    assert_eq!(runtime.identity(), ServiceId::Peer(node()));
    assert!(runtime.connect);
    assert_eq!(runtime.awaited_pong, None);
    assert_eq!(runtime.routing.len(), 0);
}

#[test]
fn the_connection_is_started_once() {
    let (_, mut runtime) = daemon(true);
    match runtime.on_ready() {
        Step::Message(Messages::Init(init), after) => {
            assert!(init.global_features.is_empty());
            assert!(init.local_features.is_empty());
            assert!(init.assets.is_empty());
            assert!(init.unknown_tlvs.is_empty());
            assert!(runtime.connect);
            assert!(matches!(runtime.sent(after, Ok(())), Step::Done));
        }
        other => panic!("{:?}", other),
    }
    assert!(!runtime.connect);
    assert!(matches!(runtime.on_ready(), Step::Done));
}

#[test]
fn a_connection_that_could_not_be_started_is_started_again() {
    let (_, mut runtime) = daemon(true);
    match runtime.on_ready() {
        Step::Message(_, after) => {
            assert!(matches!(
                runtime.sent(after, Err("reset".to_string())),
                Step::Fail(Error::Connection(words)) if words == "reset"
            ));
        }
        other => panic!("{:?}", other),
    }
    assert!(runtime.connect);
}

#[test]
fn a_daemon_that_was_connected_to_starts_nothing() {
    let (_, mut runtime) = daemon(false);
    assert!(matches!(runtime.on_ready(), Step::Done));
}

#[test]
fn messages_go_to_the_peer() {
    let (_, mut runtime) = daemon(false);
    let request = Request::PeerMessage(Messages::Other(vec![1, 2, 3]));
    match runtime.handle(ServiceBus::Msg, ServiceId::Lnpd, request) {
        Step::Message(message, AfterMessage::Finish) => {
            assert_eq!(message, Messages::Other(vec![1, 2, 3]));
        }
        other => panic!("{:?}", other),
    }
}

#[test]
fn other_requests_are_not_supported() {
    let (_, mut runtime) = daemon(false);
    assert!(matches!(
        runtime.handle(ServiceBus::Msg, ServiceId::Lnpd, Request::Hello),
        Step::Fail(Error::NotSupported(ServiceBus::Msg, RequestType::Hello))
    ));
    assert!(matches!(
        runtime.handle(ServiceBus::Ctl, ServiceId::Lnpd, Request::GetInfo),
        Step::Fail(Error::NotSupported(ServiceBus::Ctl, RequestType::GetInfo))
    ));
    assert!(matches!(
        runtime.handle(ServiceBus::Bridge, ServiceId::Loopback, Request::Terminate),
        Step::Fail(Error::NotSupported(
            ServiceBus::Bridge,
            RequestType::Terminate
        ))
    ));
}

#[test]
fn one_pong_is_awaited_at_a_time() {
    let (_, mut runtime) = daemon(false);
    match runtime.handle(ServiceBus::Bridge, ServiceId::Loopback, Request::PingPeer) {
        Step::Message(Messages::Ping { ignored, pong_size }, after) => {
            assert!(ignored.len() >= 4 && ignored.len() < 32);
            assert!(pong_size >= 4 && pong_size < 32);
            assert_eq!(runtime.awaited_pong, None);
            assert!(matches!(runtime.sent(after, Ok(())), Step::Done));
            assert_eq!(runtime.awaited_pong, Some(pong_size));
        }
        other => panic!("{:?}", other),
    }
    assert!(matches!(
        runtime.handle(ServiceBus::Bridge, ServiceId::Loopback, Request::PingPeer),
        Step::Fail(Error::NotResponding)
    ));
    let pong = Request::PeerMessage(Messages::Pong(Vec::new()));
    assert!(matches!(
        runtime.handle(ServiceBus::Bridge, ServiceId::Loopback, pong),
        Step::Done
    ));
    assert_eq!(runtime.awaited_pong, None);
    assert!(matches!(
        runtime.handle(ServiceBus::Bridge, ServiceId::Loopback, Request::PingPeer),
        Step::Message(Messages::Ping { .. }, AfterMessage::Pinged(_))
    ));
}

#[test]
fn sizes_and_noise_vary() {
    let (_, mut runtime) = daemon(false);
    let mut sizes = std::collections::HashSet::new();
    let mut noises = std::collections::HashSet::new();
    for _ in 0..200 {
        match runtime.handle(ServiceBus::Bridge, ServiceId::Loopback, Request::PingPeer) {
            Step::Message(Messages::Ping { ignored, pong_size }, _) => {
                sizes.insert(pong_size);
                noises.insert(ignored);
            }
            other => panic!("{:?}", other),
        }
    }
    assert!(sizes.len() > 1);
    assert!(noises.len() > 1);
}

#[test]
fn a_given_ping_is_sent_as_given() {
    let (_, mut runtime) = daemon(false);
    match runtime.ping_with(vec![7, 8, 9, 10], 17) {
        Step::Message(message, after) => {
            assert_eq!(
                message,
                Messages::Ping { ignored: vec![7, 8, 9, 10], pong_size: 17 }
            );
            assert_eq!(after, AfterMessage::Pinged(17));
        }
        other => panic!("{:?}", other),
    }
}

#[test]
fn a_ping_is_answered_with_a_pong_of_its_size() {
    let (_, mut runtime) = daemon(false);
    for size in [0u16, 4, 31, 1000, u16::MAX] {
        let ping = Request::PeerMessage(Messages::Ping { ignored: vec![1], pong_size: size });
        match runtime.handle(ServiceBus::Bridge, ServiceId::Loopback, ping) {
            Step::Message(Messages::Pong(noise), AfterMessage::Finish) => {
                assert_eq!(noise.len(), size as usize);
            }
            other => panic!("{:?}", other),
        }
    }
}

#[test]
fn pongs_are_judged() {
    let (_, mut runtime) = daemon(false);
    assert_eq!(runtime.judge_pong(&vec![0; 5]), PongVerdict::Unexpected);
    runtime.awaited_pong = Some(5);
    assert_eq!(runtime.judge_pong(&vec![0; 5]), PongVerdict::Expected);
    assert_eq!(runtime.judge_pong(&vec![0; 6]), PongVerdict::WrongSize);
}

#[test]
fn channels_are_handed_on() {
    let (mut listener, mut runtime) = daemon(false);
    let open = Messages::OpenChannel(vec![1, 2]);
    let envelope = match listener.handle(open) {
        Step::Send(e) => e,
        other => panic!("{:?}", other),
    };
    assert_eq!(envelope.bus, ServiceBus::Bridge);
    assert_eq!(envelope.source, ServiceId::Loopback);
    assert_eq!(envelope.dest, ServiceId::Peer(node()));
    match runtime.handle(envelope.bus, envelope.source, envelope.request) {
        Step::Send(e) => {
            assert_eq!(e.bus, ServiceBus::Msg);
            assert_eq!(e.source, ServiceId::Peer(node()));
            assert_eq!(e.dest, ServiceId::Lnpd);
            assert_eq!(
                e.request,
                Request::PeerMessage(Messages::OpenChannel(vec![1, 2]))
            );
        }
        other => panic!("{:?}", other),
    }
    let channel = ChannelId { hi: 5, lo: 6 };
    let accept = Request::PeerMessage(Messages::AcceptChannel {
        temporary_channel_id: channel,
        terms: vec![3],
    });
    match runtime.handle(ServiceBus::Bridge, ServiceId::Loopback, accept) {
        Step::Send(e) => {
            assert_eq!(e.dest, ServiceId::Channel(channel));
            assert_eq!(
                e.request,
                Request::PeerMessage(Messages::AcceptChannel {
                    temporary_channel_id: channel,
                    terms: vec![3]
                })
            );
        }
        other => panic!("{:?}", other),
    }
    let other = Request::PeerMessage(Messages::Other(vec![9]));
    assert!(matches!(
        runtime.handle(ServiceBus::Bridge, ServiceId::Loopback, other),
        Step::Done
    ));
}

#[test]
fn a_silent_peer_is_to_be_pinged() {
    let (mut listener, _) = daemon(false);
    match listener.handle_err(Error::TimedOut) {
        Step::Send(e) => {
            assert_eq!(e.request, Request::PingPeer);
            assert_eq!(e.bus, ServiceBus::Bridge);
        }
        other => panic!("{:?}", other),
    }
    assert!(matches!(
        listener.handle_err(Error::Connection("reset".to_string())),
        Step::Fail(Error::Connection(words)) if words == "reset"
    ));
}

#[test]
fn errors_of_the_bus_are_not_passed_on() {
    let (_, mut runtime) = daemon(false);
    assert_eq!(runtime.handle_err(Error::Send("no route".to_string())), Ok(()));
}

#[test]
fn the_bridge_passes_errors_on_and_ignores_replies() {
    let mut bridge = BridgeHandler;
    assert_eq!(bridge.identity(), ServiceId::Loopback);
    assert_eq!(
        bridge.handle(ServiceBus::Bridge, ServiceId::Lnpd, Request::Hello),
        Ok(())
    );
    let lost = Error::Send("no route".to_string());
    assert_eq!(bridge.handle_err(lost.clone()), Err(lost));
}
