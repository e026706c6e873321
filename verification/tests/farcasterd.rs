use farcaster_core::consensus::serialize;
use farcaster_core::swap::btcxmr;
use farcaster_node::addr::{InetSocketAddr, NodeAddr, OnionKey, RemoteSocketAddr};
use farcaster_node::chain::{
    BitcoinAddress, BitcoinNetwork, Chain, Coin, MoneroAddress, MoneroNetwork, Network,
};
use farcaster_node::clock::Moment;
use farcaster_node::config::{AutoFundingServers, Config, PerNetwork, SyncerServers};
use farcaster_node::farcasterd::launch::{Daemon, Task};
use farcaster_node::farcasterd::runtime::{run, Runtime};
use farcaster_node::farcasterd::step::{
    AfterDescribe, AfterLaunch, AfterSend, AfterWatch, FundingWallet, Report, Step, Watched,
};
use farcaster_node::ident::{OfferId, PublicKey, RequestId, SecretKey, SwapId};
use farcaster_node::offer::{Offer, PublicOffer, TradeRole};
use farcaster_node::rpc::{
    Commit, Error, FundingInfo, LaunchSwap, Msg, Notice, Outcome, Params, ProtoPublicOffer,
    Piece, PubOffer, Request, RequestType, Style, TakeCommit,
};
use farcaster_node::service::{Envelope, ServiceBus, ServiceId};
use std::str::FromStr;
use uuid::Uuid;

const TEXT: &str = "Offer:Cke4ftrP5A7CRkYdGNd87TRU6sUP1kBKM1W723UjzEWsNR4gmBqNCsR11111uMFubBevJ2E5fp6ZR11111TBALTh113GTvtvqfD1111114A4TTfifktDH7QZD71vpdfo6EVo2ds7KviHz7vYbLZDkgsMNb11111111111111111111111111111111111111111AfZ113XRBuL3QS1m";
const OFFER: OfferId = OfferId { uuid: 0x67e55044_10b1_426f_9247_bb680e5fe0c8 };
const MONERO: &str = "4ADT1BtbxqEWeMKp9GgPr2NeyJXXtNxvoDawpyA4WpzFcGcoHUvXeijE66DNfohE9r1bQYaBiQjEtKE7CtkTdLwiDznFzra";
const NOW: Moment = Moment { secs: 1_000, nanos: 5 };
const CLIENT: ServiceId = ServiceId::Client(7);
const SWAP: SwapId = SwapId { hi: 0, lo: 0xaa };
const SWAPD: ServiceId = ServiceId::Swap(SWAP);
const BITCOIN: Chain = Chain { coin: Coin::Bitcoin, network: Network::Local };
const MONEROS: Chain = Chain { coin: Coin::Monero, network: Network::Local };
const SECRET: SecretKey = SecretKey { hi: 1, lo: 2 };

fn config(auto_funding: bool) -> Config {
    Config {
        auto_funding,
        funding_servers: PerNetwork {
            mainnet: None,
            testnet: None,
            local: Some(AutoFundingServers {
                bitcoin_cookie_path: "cookie".to_string(),
                bitcoin_rpc: "btc".to_string(),
                monero_rpc_wallet: "xmr".to_string(),
            }),
        },
        syncer_servers: PerNetwork {
            mainnet: None,
            testnet: None,
            local: Some(SyncerServers {
                electrum_server: "electrum".to_string(),
                monero_daemon: "monerod".to_string(),
                monero_rpc_wallet: "wallet".to_string(),
            }),
        },
    }
}

fn start() -> Runtime {
    let (_, runtime) = run(
        config(false),
        "token".to_string(),
        Moment { secs: 900, nanos: 0 },
    );
    runtime
}

fn ctl(runtime: &mut Runtime, source: ServiceId, request: Request) -> Step {
    assert!(runtime.admits(source, &request));
    runtime.handle(ServiceBus::Ctl, source, request, NOW)
}

fn sent(step: Step) -> (Envelope, AfterSend) {
    match step {
        Step::Send(e, after) => (e, after),
        other => panic!("{:?}", other),
    }
}

fn launched(step: Step) -> (Task, AfterLaunch) {
    match step {
        Step::Launch(task, after) => (task, after),
        other => panic!("{:?}", other),
    }
}

fn described(step: Step) -> (Vec<FundingInfo>, AfterDescribe) {
    match step {
        Step::Describe(infos, after) => (infos, after),
        other => panic!("{:?}", other),
    }
}

fn watched(step: Step) -> (Task, AfterWatch) {
    match step {
        Step::Watch(task, after) => (task, after),
        other => panic!("{:?}", other),
    }
}

fn unsent() -> Result<(), String> {
    Err("no route".to_string())
}

// Sends all answers, and gives them.
fn answers(runtime: &mut Runtime, mut step: Step) -> Vec<(ServiceId, Request)> {
    let mut all = Vec::new();
    loop {
        match step {
            Step::Done => return all,
            Step::Send(e, after) => {
                assert_eq!(e.bus, ServiceBus::Ctl);
                assert_eq!(e.source, ServiceId::Farcasterd);
                all.push((e.dest, e.request));
                step = runtime.sent(after, Ok(()));
            }
            other => panic!("{:?}", other),
        }
    }
}

fn maker_key() -> PublicKey {
    PublicKey {
        odd: false,
        hi: 0xe77b779cdc2c713823f7a19147a67e42,
        lo: 0x09c74d77e2cb5045bce0584a6be064d4,
    }
}

fn socket(port: u16) -> InetSocketAddr {
    InetSocketAddr::IPv4 { ip: 0x7f00_0001, port }
}

fn bind(port: u16) -> RemoteSocketAddr {
    RemoteSocketAddr::Ftcp(socket(port))
}

fn maker() -> NodeAddr {
    NodeAddr { node_id: maker_key(), remote_addr: bind(9735) }
}

fn address() -> BitcoinAddress {
    BitcoinAddress {
        network: BitcoinNetwork::Regtest,
        text: "bcrt1qexample".to_string(),
    }
}

// The terms of the offer, under an identifier.
fn terms(id: OfferId) -> Offer {
    let mut core = btcxmr::PublicOffer::from_str(TEXT).unwrap().offer;
    core.uuid = Uuid::from_u128(id.uuid);
    Offer::new(serialize(&core)).unwrap()
}

fn public_offer() -> PublicOffer {
    terms(OFFER).to_public_v1(maker_key(), socket(9735)).unwrap()
}

fn proto(port: u16, keys: bool) -> ProtoPublicOffer {
    ProtoPublicOffer {
        offer: terms(OFFER),
        public_addr: bind(9735),
        bind_addr: bind(port),
        peer_secret_key: if keys { Some(SECRET) } else { None },
        peer_public_key: if keys { Some(maker_key()) } else { None },
        arbitrating_addr: address(),
        accordant_addr: MONERO.to_string(),
    }
}

fn take(key: Option<SecretKey>) -> PubOffer {
    PubOffer {
        public_offer: public_offer(),
        external_address: address(),
        internal_address: MONERO.to_string(),
        peer_secret_key: key,
    }
}

fn launch_swap(role: TradeRole) -> LaunchSwap {
    LaunchSwap {
        local_trade_role: role,
        public_offer: public_offer(),
        local_params: Params::Bob(vec![1, 2, 3]),
        swap_id: SWAP,
        remote_commit: Some(Commit::Alice(vec![4])),
        funding_address: Some(address()),
    }
}

fn commit(text: &str) -> TakeCommit {
    TakeCommit {
        commit: Commit::Alice(vec![9]),
        public_offer: text.to_string(),
        swap_id: SWAP,
    }
}

// An offer that was made here, and is listened for.
fn with_offer() -> Runtime {
    let mut runtime = start();
    let step = ctl(&mut runtime, CLIENT, Request::MakeOffer(proto(9735, true)));
    let (_, after) = launched(step);
    let step = runtime.launched(after, Ok(42));
    answers(&mut runtime, step);
    runtime
}

// A swap that was launched for an offer that was made here, and runs with both syncers.
fn with_swap() -> Runtime {
    let mut runtime = with_offer();
    let step = ctl(
        &mut runtime,
        ServiceId::Wallet,
        Request::LaunchSwap(launch_swap(TradeRole::Maker)),
    );
    let (_, after) = launched(step);
    assert!(matches!(runtime.launched(after, Ok(43)), Step::Done));
    let (_, after) = launched(ctl(&mut runtime, SWAPD, Request::Hello));
    let (_, after) = launched(runtime.launched(after, Ok(44)));
    let (_, after) = sent(runtime.launched(after, Ok(45)));
    let step = runtime.sent(after, Ok(()));
    answers(&mut runtime, step);
    for chain in [BITCOIN, MONEROS] {
        let step = ctl(&mut runtime, ServiceId::Syncer(chain), Request::Hello);
        answers(&mut runtime, step);
    }
    runtime
}

#[test]
fn the_daemon_starts_with_nothing() {
    let (task, runtime) = run(config(true), "token".to_string(), NOW);
    assert_eq!(task.daemon, Daemon::Walletd);
    assert_eq!(task.args, vec!["--token", "token"]);
    assert_eq!(runtime.identity(), ServiceId::Farcasterd);
    assert_eq!(runtime.public_offers.len(), 0);
    assert_eq!(runtime.running_swaps.len(), 0);
    assert_eq!(runtime.stats.success, 0);
}

#[test]
fn an_offer_without_keys_waits_for_them() {
    let mut runtime = start();
    let (e, after) = sent(ctl(
        &mut runtime,
        CLIENT,
        Request::MakeOffer(proto(9735, false)),
    ));
    assert_eq!(e.dest, ServiceId::Wallet);
    assert_eq!(e.source, ServiceId::Farcasterd);
    let id = match e.request {
        Request::GetKeys { token, id } => {
            assert_eq!(token, "token");
            id
        }
        other => panic!("{:?}", other),
    };
    assert_eq!(after, AfterSend::Finish);
    assert!(matches!(runtime.sent(after, Ok(())), Step::Done));
    assert_eq!(runtime.pending_requests.len(), 1);
    let keys = Request::Keys { secret_key: SECRET, public_key: maker_key(), id };
    let (task, _) = launched(ctl(&mut runtime, ServiceId::Wallet, keys));
    assert_eq!(task.daemon, Daemon::Peerd);
    assert_eq!(runtime.pending_requests.len(), 0);
    // Keys that come again are ignored.
    let keys = Request::Keys { secret_key: SECRET, public_key: maker_key(), id };
    assert!(matches!(ctl(&mut runtime, ServiceId::Wallet, keys), Step::Done));
}

#[test]
fn identifiers_of_requests_vary() {
    let mut runtime = start();
    for _ in 0..5 {
        sent(ctl(&mut runtime, CLIENT, Request::MakeOffer(proto(9735, false))));
    }
    assert!(runtime.pending_requests.len() > 1);
}

#[test]
fn a_request_waits_under_the_identifier_that_is_given() {
    let mut runtime = start();
    let id = RequestId { number: 77 };
    let (e, _) = sent(runtime.await_keys(id, CLIENT, Request::TakeOffer(take(None))));
    assert_eq!(
        e.request,
        Request::GetKeys { token: "token".to_string(), id }
    );
    assert_eq!(
        runtime.pending_requests.get(&id),
        Some(&(Request::TakeOffer(take(None)), CLIENT))
    );
}

#[test]
fn keys_for_a_request_without_a_place_for_them() {
    let mut runtime = start();
    let id = RequestId { number: 1 };
    runtime.await_keys(id, CLIENT, Request::Hello);
    let keys = Request::Keys { secret_key: SECRET, public_key: maker_key(), id };
    assert!(matches!(
        ctl(&mut runtime, ServiceId::Wallet, keys),
        Step::Fail(Error::UnexpectedPending)
    ));
}

#[test]
fn an_offer_is_made() {
    let mut runtime = start();
    let (task, after) = launched(ctl(
        &mut runtime,
        CLIENT,
        Request::MakeOffer(proto(9735, true)),
    ));
    assert_eq!(task.daemon, Daemon::Peerd);
    assert_eq!(task.args[..4], ["--listen", "127.0.0.1", "--port", "9735"]);
    let step = runtime.launched(after, Ok(42));
    assert_eq!(
        answers(&mut runtime, step),
        vec![
            (CLIENT, Request::Progress(Notice::PeerdLaunched(42))),
            (
                CLIENT,
                Request::Success(Some(Notice::ShareOffer(TEXT.to_string())))
            ),
        ]
    );
    assert_eq!(runtime.public_offers.get(&TEXT.to_string()), Some(&public_offer()));
    assert_eq!(runtime.listens.get(&OFFER), Some(&bind(9735)));
    assert_eq!(runtime.node_ids.get(&OFFER), Some(&maker_key()));
    assert_eq!(runtime.arb_addrs.get(&TEXT.to_string()), Some(&address()));
    assert_eq!(
        runtime.acc_addrs.get(&TEXT.to_string()),
        Some(&MoneroAddress {
            network: MoneroNetwork::Mainnet,
            text: MONERO.to_string()
        })
    );
}

#[test]
fn an_offer_is_registered_once_and_its_listener_is_shared() {
    let mut runtime = with_offer();
    let step = ctl(&mut runtime, CLIENT, Request::MakeOffer(proto(9735, false)));
    assert_eq!(
        answers(&mut runtime, step),
        vec![
            (CLIENT, Request::Progress(Notice::AlreadyListening(bind(9735)))),
            (CLIENT, Request::Failure { code: 1, info: Notice::OfferKnown }),
        ]
    );
    assert_eq!(runtime.public_offers.len(), 1);
    let mut second = proto(9735, false);
    second.public_addr = bind(80);
    second.offer = terms(OfferId { uuid: 2 });
    let step = ctl(&mut runtime, CLIENT, Request::MakeOffer(second));
    assert_eq!(answers(&mut runtime, step).len(), 2);
    assert_eq!(runtime.public_offers.len(), 2);
    assert_eq!(runtime.node_ids.get(&OfferId { uuid: 2 }), Some(&maker_key()));
}

#[test]
fn an_offer_at_two_sockets_is_paid_for_at_two_addresses() {
    let mut runtime = with_offer();
    let mut second = proto(9735, false);
    second.public_addr = bind(80);
    second.arbitrating_addr.text = "bcrt1qother".to_string();
    let step = ctl(&mut runtime, CLIENT, Request::MakeOffer(second));
    assert_eq!(answers(&mut runtime, step).len(), 2);
    assert_eq!(runtime.arb_addrs.len(), 2);
    assert_eq!(runtime.acc_addrs.len(), 2);
    let other = terms(OFFER).to_public_v1(maker_key(), socket(80)).unwrap();
    for (text, address) in [(other.text().as_str(), "bcrt1qother"), (TEXT, "bcrt1qexample")] {
        let request = Request::Protocol(Msg::TakerCommit(commit(text)));
        let (e, after) = sent(runtime.handle(ServiceBus::Msg, CLIENT, request, NOW));
        match e.request {
            Request::BitcoinAddress(SWAP, paid) => assert_eq!(paid.text, address),
            other => panic!("{:?}", other),
        }
        let (e, _) = sent(runtime.sent(after, Ok(())));
        assert!(matches!(e.request, Request::MoneroAddress(SWAP, _)));
    }
    assert_eq!(runtime.arb_addrs.len(), 0);
    assert_eq!(runtime.acc_addrs.len(), 0);
}

#[test]
fn a_second_clean_up_only_counts() {
    let mut runtime = with_swap();
    let step = ctl(&mut runtime, SWAPD, Request::SwapOutcome(Outcome::Buy));
    let told = answers(&mut runtime, step);
    assert!(told.len() >= 3);
    assert!(told.iter().all(|(_, request)| *request == Request::Terminate));
    let step = ctl(&mut runtime, SWAPD, Request::SwapOutcome(Outcome::Refund));
    assert!(matches!(step, Step::Done));
    assert_eq!(runtime.stats.success, 1);
    assert_eq!(runtime.stats.refund, 1);
    assert_eq!(runtime.syncer_services.len(), 0);
    assert_eq!(runtime.running_swaps.len(), 0);
}

#[test]
fn a_launched_swap_daemon_is_reported() {
    let mut runtime = with_offer();
    for pid in [Ok(4711), Err("not found".to_string())] {
        let (_, after) = launched(ctl(
            &mut runtime,
            ServiceId::Wallet,
            Request::LaunchSwap(launch_swap(TradeRole::Maker)),
        ));
        let (role, init, network) = match after {
            AfterLaunch::Swapd { role, init, network } => (role, init, network),
            other => panic!("{:?}", other),
        };
        let awaited = runtime.making_swaps.len();
        let result = runtime.swapd_launched(role, init, network, pid.clone());
        if pid.is_ok() {
            let text = "New instance of swapd launched with PID 4711".to_string();
            assert_eq!(result, Ok(text));
            assert_eq!(runtime.making_swaps.len(), awaited + 1);
            // The offer is made public again.
            let step = ctl(&mut runtime, CLIENT, Request::MakeOffer(proto(9735, false)));
            answers(&mut runtime, step);
        } else {
            assert_eq!(result, Err(Error::Launch("not found".to_string())));
            assert_eq!(runtime.making_swaps.len(), awaited);
        }
    }
}

#[test]
fn a_listener_that_cannot_be_launched() {
    let mut runtime = start();
    let (_, after) = launched(ctl(
        &mut runtime,
        CLIENT,
        Request::MakeOffer(proto(9735, true)),
    ));
    assert!(matches!(
        runtime.launched(after, Err("not found".to_string())),
        Step::Fail(Error::Launch(words)) if words == "not found"
    ));
    assert_eq!(runtime.public_offers.len(), 0);
    assert_eq!(runtime.listens.len(), 1);
}

#[test]
fn addresses_that_cannot_be_listened_at() {
    let mut runtime = start();
    let mut req = proto(9735, true);
    req.bind_addr = RemoteSocketAddr::Zmq(socket(1));
    assert!(matches!(
        ctl(&mut runtime, CLIENT, Request::MakeOffer(req)),
        Step::Fail(Error::OnlyTcp)
    ));
    let onion = OnionKey::new(
        0x58666666666666666666666666666666,
        0x66666666666666666666666666666666,
    )
    .unwrap();
    let mut req = proto(9735, true);
    req.bind_addr = RemoteSocketAddr::Ftcp(InetSocketAddr::Tor(onion));
    assert!(matches!(
        ctl(&mut runtime, CLIENT, Request::MakeOffer(req)),
        Step::Fail(Error::NoSocketAddr)
    ));
}

#[test]
fn an_offer_with_a_bad_address_or_key() {
    let mut runtime = start();
    let mut req = proto(9735, true);
    req.accordant_addr = MONERO.replace("zra", "zrb");
    let (_, after) = launched(ctl(&mut runtime, CLIENT, Request::MakeOffer(req)));
    assert!(matches!(
        runtime.launched(after, Ok(1)),
        Step::Fail(Error::AddressFormat(Some(words))) if words == "Invalid checksum"
    ));
    assert_eq!(runtime.public_offers.len(), 1);
    assert_eq!(runtime.arb_addrs.len(), 1);
    assert_eq!(runtime.acc_addrs.len(), 0);
    let mut req = proto(9736, true);
    req.peer_public_key = Some(PublicKey { odd: false, hi: 0, lo: 0 });
    let (_, after) = launched(ctl(&mut runtime, CLIENT, Request::MakeOffer(req)));
    assert!(matches!(
        runtime.launched(after, Ok(1)),
        Step::Fail(Error::InvalidKey)
    ));
}

#[test]
fn a_lone_key_is_not_admitted() {
    let runtime = start();
    let mut req = proto(9735, true);
    req.peer_public_key = None;
    assert!(!runtime.admits(CLIENT, &Request::MakeOffer(req)));
    let runtime = with_offer();
    let mut req = proto(9735, true);
    req.peer_public_key = None;
    assert!(runtime.admits(CLIENT, &Request::MakeOffer(req)));
}

#[test]
fn a_taker_commits_to_an_offer_that_was_made_here() {
    let mut runtime = with_offer();
    let peerd = ServiceId::Peer(maker());
    let request = Request::Protocol(Msg::TakerCommit(commit(TEXT)));
    let (e, after) = sent(runtime.handle(ServiceBus::Msg, peerd, request, NOW));
    assert_eq!(e.bus, ServiceBus::Msg);
    assert_eq!(e.dest, ServiceId::Wallet);
    assert_eq!(e.source, ServiceId::Farcasterd);
    assert_eq!(e.request, Request::BitcoinAddress(SWAP, address()));
    let (e, after) = sent(runtime.sent(after, Ok(())));
    assert_eq!(
        e.request,
        Request::MoneroAddress(
            SWAP,
            MoneroAddress { network: MoneroNetwork::Mainnet, text: MONERO.to_string() }
        )
    );
    let (e, after) = sent(runtime.sent(after, Ok(())));
    assert_eq!(e.source, peerd);
    assert_eq!(e.dest, ServiceId::Wallet);
    assert_eq!(e.request, Request::Protocol(Msg::TakerCommit(commit(TEXT))));
    assert!(matches!(runtime.sent(after, Ok(())), Step::Done));
    assert_eq!(runtime.peerd_ids.get(&OFFER), Some(&peerd));
    // The swap then speaks through that daemon.
    let (_, after) = launched(ctl(
        &mut runtime,
        ServiceId::Wallet,
        Request::LaunchSwap(launch_swap(TradeRole::Maker)),
    ));
    match after {
        AfterLaunch::Swapd { init, .. } => assert_eq!(init.peerd, peerd),
        other => panic!("{:?}", other),
    }
    // A second commitment finds the offer gone.
    let request = Request::Protocol(Msg::TakerCommit(commit(TEXT)));
    assert!(matches!(
        runtime.handle(ServiceBus::Msg, peerd, request, NOW),
        Step::Done
    ));
}

#[test]
fn a_wallet_that_cannot_be_reached_loses_the_address() {
    let mut runtime = with_offer();
    let request = Request::Protocol(Msg::TakerCommit(commit(TEXT)));
    let (_, after) = sent(runtime.handle(ServiceBus::Msg, CLIENT, request, NOW));
    assert!(matches!(
        runtime.sent(after, unsent()),
        Step::Fail(Error::Send(words)) if words == "no route"
    ));
    assert_eq!(runtime.arb_addrs.len(), 0);
    assert_eq!(runtime.acc_addrs.len(), 1);
    // The next commitment goes on with the other address.
    let request = Request::Protocol(Msg::TakerCommit(commit(TEXT)));
    let (e, _) = sent(runtime.handle(ServiceBus::Msg, CLIENT, request, NOW));
    assert!(matches!(e.request, Request::MoneroAddress(..)));
}

#[test]
fn commitments_to_other_offers() {
    let mut runtime = start();
    let request = Request::Protocol(Msg::TakerCommit(commit(TEXT)));
    assert!(matches!(
        runtime.handle(ServiceBus::Msg, CLIENT, request, NOW),
        Step::Done
    ));
    let request = Request::Protocol(Msg::TakerCommit(commit("no offer at all")));
    assert!(matches!(
        runtime.handle(ServiceBus::Msg, CLIENT, request, NOW),
        Step::Fail(Error::OfferFormat(Some(words))) if words == "Incorrect magic bytes"
    ));
    let request = Request::Protocol(Msg::TakerCommit(commit("")));
    assert!(matches!(
        runtime.handle(ServiceBus::Msg, CLIENT, request, NOW),
        Step::Fail(Error::OfferFormat(None))
    ));
    assert_eq!(runtime.peerd_ids.len(), 0);
}

#[test]
fn buses_have_their_requests() {
    let mut runtime = start();
    assert!(matches!(
        runtime.handle(ServiceBus::Msg, CLIENT, Request::Hello, NOW),
        Step::Done
    ));
    assert!(matches!(
        runtime.handle(ServiceBus::Msg, CLIENT, Request::GetInfo, NOW),
        Step::Fail(Error::NotSupported(ServiceBus::Msg, RequestType::GetInfo))
    ));
    assert!(matches!(
        runtime.handle(ServiceBus::Msg, CLIENT, Request::Protocol(Msg::Other(vec![])), NOW),
        Step::Fail(Error::NotSupported(ServiceBus::Msg, RequestType::Protocol))
    ));
    assert!(matches!(
        runtime.handle(ServiceBus::Bridge, CLIENT, Request::Hello, NOW),
        Step::Fail(Error::NotSupported(ServiceBus::Bridge, RequestType::Hello))
    ));
    assert!(matches!(
        ctl(&mut runtime, CLIENT, Request::PingPeer),
        Step::Done
    ));
    assert_eq!(runtime.handle_err(Error::Send("no route".to_string())), Ok(()));
}

#[test]
fn an_offer_is_taken() {
    let mut runtime = start();
    let (task, after) = watched(ctl(
        &mut runtime,
        CLIENT,
        Request::TakeOffer(take(Some(SECRET))),
    ));
    assert_eq!(task.daemon, Daemon::Peerd);
    assert_eq!(task.args[0], "--connect");
    assert_eq!(
        task.args[1],
        "02e77b779cdc2c713823f7a19147a67e4209c74d77e2cb5045bce0584a6be064d4@127.0.0.1:9735"
    );
    let (e, after) = sent(runtime.watched(after, Watched::Running(99)));
    assert_eq!(e.dest, ServiceId::Wallet);
    assert_eq!(e.request, Request::TakeOffer(take(None)));
    assert_eq!(
        after,
        AfterSend::Reports(vec![
            Report {
                to: CLIENT,
                request: Request::Progress(Notice::PeerdLaunched(99))
            },
            Report {
                to: CLIENT,
                request: Request::Success(Some(Notice::OfferRegistered(OFFER)))
            },
        ])
    );
    let step = runtime.sent(after, Ok(()));
    assert_eq!(answers(&mut runtime, step).len(), 2);
    assert_eq!(runtime.public_offers.len(), 1);
    assert_eq!(
        runtime.spawning_services.get(&ServiceId::Peer(maker())),
        Some(&CLIENT)
    );
    // It is not taken again.
    let step = ctl(&mut runtime, CLIENT, Request::TakeOffer(take(None)));
    assert_eq!(
        answers(&mut runtime, step),
        vec![(
            CLIENT,
            Request::Failure { code: 1, info: Notice::OfferTaken(TEXT.to_string()) }
        )]
    );
    // The peer daemon says hello, and the client is told.
    let step = ctl(&mut runtime, ServiceId::Peer(maker()), Request::Hello);
    assert_eq!(
        answers(&mut runtime, step),
        vec![(
            CLIENT,
            Request::Success(Some(Notice::ConnectedTo(ServiceId::Peer(maker()))))
        )]
    );
    assert!(runtime.connections.contains(&maker()));
    assert_eq!(runtime.spawning_services.len(), 0);
}

#[test]
fn an_offer_of_a_connected_peer_is_taken_without_keys() {
    let mut runtime = start();
    let step = ctl(&mut runtime, ServiceId::Peer(maker()), Request::Hello);
    assert!(matches!(step, Step::Done));
    let (e, after) = sent(ctl(&mut runtime, CLIENT, Request::TakeOffer(take(None))));
    assert_eq!(e.request, Request::TakeOffer(take(None)));
    match after {
        AfterSend::Reports(reports) => assert_eq!(
            reports[0].request,
            Request::Progress(Notice::AlreadyConnected(maker()))
        ),
        other => panic!("{:?}", other),
    }
}

#[test]
fn a_taken_offer_waits_for_keys() {
    let mut runtime = start();
    let (e, _) = sent(ctl(&mut runtime, CLIENT, Request::TakeOffer(take(None))));
    let id = match e.request {
        Request::GetKeys { id, .. } => id,
        other => panic!("{:?}", other),
    };
    let keys = Request::Keys { secret_key: SECRET, public_key: maker_key(), id };
    let (_, after) = watched(ctl(&mut runtime, ServiceId::Wallet, keys));
    assert_eq!(after.take.peer_secret_key, Some(SECRET));
    assert_eq!(after.source, CLIENT);
}

#[test]
fn a_peer_that_cannot_be_connected_to() {
    let mut runtime = start();
    for (result, error) in [
        (
            Watched::Lost("No such file or directory".to_string()),
            Error::Launch("No such file or directory".to_string()),
        ),
        (Watched::Exited, Error::InvalidEndpoint),
    ] {
        let (_, after) = watched(ctl(
            &mut runtime,
            CLIENT,
            Request::TakeOffer(take(Some(SECRET))),
        ));
        let step = runtime.watched(after, result);
        assert_eq!(
            answers(&mut runtime, step),
            vec![(CLIENT, Request::Failure { code: 1, info: Notice::Trouble(error) })]
        );
        assert_eq!(runtime.public_offers.len(), 0);
        assert_eq!(runtime.spawning_services.len(), 0);
    }
}

#[test]
fn a_swap_is_launched_and_started() {
    let mut runtime = with_offer();
    let (task, after) = launched(ctl(
        &mut runtime,
        ServiceId::Wallet,
        Request::LaunchSwap(launch_swap(TradeRole::Maker)),
    ));
    assert_eq!(task.daemon, Daemon::Swapd);
    assert_eq!(task.args, vec![SWAP.to_hex(), TEXT.to_string(), "Maker".to_string()]);
    assert_eq!(runtime.public_offers.len(), 0);
    assert_eq!(runtime.consumed_offers.get(&OFFER), Some(&SWAP));
    assert_eq!(runtime.stats.initialized, 1);
    assert!(matches!(runtime.launched(after, Ok(1)), Step::Done));
    assert!(runtime.making_swaps.contains_key(&SWAPD));

    // Its daemon says hello, and the syncers are launched.
    let (task, after) = launched(ctl(&mut runtime, SWAPD, Request::Hello));
    assert_eq!(task.daemon, Daemon::Syncerd);
    assert_eq!(task.args[1], "Bitcoin");
    let (task, after) = launched(runtime.launched(after, Ok(2)));
    assert_eq!(task.args[1], "Monero");
    let (e, after) = sent(runtime.launched(after, Ok(3)));
    assert_eq!(e.dest, SWAPD);
    match e.request {
        Request::MakeSwap(init) => {
            assert_eq!(init.local_params, Params::Bob(vec![1, 2, 3]));
            assert_eq!(init.remote_commit, Some(Commit::Alice(vec![4])));
            assert_eq!(init.funding_address, Some(address()));
            assert_eq!(init.swap_id, SWAP);
            assert_eq!(init.report_to, Some(ServiceId::Farcasterd));
            assert_eq!(init.peerd, ServiceId::Peer(maker()));
        }
        other => panic!("{:?}", other),
    }
    let step = runtime.sent(after, Ok(()));
    assert_eq!(
        answers(&mut runtime, step),
        vec![(
            ServiceId::Farcasterd,
            Request::Progress(Notice::SwapOperational(SWAPD))
        )]
    );
    assert!(runtime.running_swaps.contains(&SWAP));
    assert!(!runtime.making_swaps.contains_key(&SWAPD));
    assert!(runtime.syncer_clients.get(&BITCOIN).unwrap().contains(&SWAP));
    assert!(runtime.syncer_clients.get(&MONEROS).unwrap().contains(&SWAP));
    assert_eq!(runtime.known_swap_id(SWAPD), Ok(SWAP));
    assert_eq!(runtime.known_swap_id(CLIENT), Err(Error::NotSwapd));
    assert_eq!(
        runtime.known_swap_id(ServiceId::Swap(SwapId { hi: 9, lo: 9 })),
        Err(Error::UnknownSwapd)
    );
}

#[test]
fn a_taker_starts_with_the_syncers_that_are_there() {
    let mut runtime = with_swap();
    let other = SwapId { hi: 0, lo: 0xbb };
    let fifth = || {
        terms(OfferId { uuid: 5 }).to_public_v1(maker_key(), socket(9735)).unwrap()
    };
    let mut req = take(None);
    req.public_offer = fifth();
    let step = ctl(&mut runtime, ServiceId::Peer(maker()), Request::Hello);
    assert!(matches!(step, Step::Done));
    let (_, _) = sent(ctl(&mut runtime, CLIENT, Request::TakeOffer(req)));
    let mut launch = launch_swap(TradeRole::Taker);
    launch.public_offer = fifth();
    launch.swap_id = other;
    let (_, after) = launched(ctl(&mut runtime, ServiceId::Wallet, Request::LaunchSwap(launch)));
    runtime.launched(after, Ok(5));
    assert!(runtime.taking_swaps.contains_key(&ServiceId::Swap(other)));
    let (e, _) = sent(ctl(&mut runtime, ServiceId::Swap(other), Request::Hello));
    assert!(matches!(e.request, Request::TakeSwap(_)));
    assert_eq!(runtime.syncer_clients.get(&BITCOIN).unwrap().len(), 2);
}

#[test]
fn a_syncer_says_hello() {
    let mut runtime = with_swap();
    assert_eq!(
        runtime.syncer_services.get(&BITCOIN),
        Some(&ServiceId::Syncer(BITCOIN))
    );
    assert_eq!(runtime.spawning_services.len(), 0);
    // A syncer that was not launched from here is not registered.
    let chain = Chain { coin: Coin::Bitcoin, network: Network::Mainnet };
    let step = ctl(&mut runtime, ServiceId::Syncer(chain), Request::Hello);
    assert!(matches!(step, Step::Done));
    assert_eq!(runtime.syncer_services.len(), 2);
}

#[test]
fn a_syncer_that_cannot_be_launched() {
    let mut runtime = with_offer();
    let (_, after) = launched(ctl(
        &mut runtime,
        ServiceId::Wallet,
        Request::LaunchSwap(launch_swap(TradeRole::Maker)),
    ));
    runtime.launched(after, Ok(1));
    let (_, after) = launched(ctl(&mut runtime, SWAPD, Request::Hello));
    assert!(matches!(
        runtime.launched(after, Err("not found".to_string())),
        Step::Fail(Error::Launch(words)) if words == "not found"
    ));
    // The swap is awaited still.
    assert!(runtime.making_swaps.contains_key(&SWAPD));
    runtime.config.syncer_servers.local = None;
    assert!(matches!(
        ctl(&mut runtime, SWAPD, Request::Hello),
        Step::Fail(Error::InvalidConfig)
    ));
}

#[test]
fn swaps_that_are_not_launched() {
    let mut runtime = start();
    assert!(matches!(
        ctl(
            &mut runtime,
            ServiceId::Wallet,
            Request::LaunchSwap(launch_swap(TradeRole::Maker))
        ),
        Step::Done
    ));
    assert!(matches!(
        ctl(
            &mut runtime,
            ServiceId::Wallet,
            Request::LaunchSwap(launch_swap(TradeRole::Taker))
        ),
        Step::Fail(Error::UnknownOffer)
    ));
    let mut runtime = with_offer();
    let (_, after) = launched(ctl(
        &mut runtime,
        ServiceId::Wallet,
        Request::LaunchSwap(launch_swap(TradeRole::Maker)),
    ));
    assert!(matches!(
        runtime.launched(after, Err("not found".to_string())),
        Step::Fail(Error::Launch(words)) if words == "not found"
    ));
    assert!(!runtime.making_swaps.contains_key(&SWAPD));
    // The offer is gone, and cannot be taken.
    let step = ctl(&mut runtime, CLIENT, Request::TakeOffer(take(None)));
    assert_eq!(answers(&mut runtime, step).len(), 1);
}

#[test]
fn the_end_of_a_swap_leaves_nothing() {
    let mut runtime = with_swap();
    let step = ctl(&mut runtime, ServiceId::Peer(maker()), Request::Hello);
    assert!(matches!(step, Step::Done));
    let (e, after) = sent(ctl(&mut runtime, SWAPD, Request::SwapOutcome(Outcome::Buy)));
    assert_eq!(e.dest, SWAPD);
    assert_eq!(e.request, Request::Terminate);
    assert!(runtime.admits_after(&after));
    let (e, after) = sent(runtime.sent(after, Ok(())));
    assert_eq!(e.dest, ServiceId::Peer(maker()));
    assert_eq!(e.request, Request::Terminate);
    let (e, after) = sent(runtime.sent(after, Ok(())));
    let first = e.dest;
    assert_eq!(e.request, Request::Terminate);
    let (e, after) = sent(runtime.sent(after, Ok(())));
    let second = e.dest;
    assert!(first != second);
    for dest in [first, second] {
        assert!(dest == ServiceId::Syncer(BITCOIN) || dest == ServiceId::Syncer(MONEROS));
    }
    assert_eq!(runtime.stats.success, 0);
    assert!(matches!(runtime.sent(after, Ok(())), Step::Done));
    assert_eq!(runtime.stats.success, 1);
    assert!(!runtime.running_swaps.contains(&SWAP));
    assert_eq!(runtime.consumed_offers.len(), 0);
    assert_eq!(runtime.listens.len(), 0);
    assert_eq!(runtime.node_ids.len(), 0);
    assert_eq!(runtime.connections.len(), 0);
    assert_eq!(runtime.syncer_clients.len(), 0);
    assert_eq!(runtime.syncer_services.len(), 0);
}

#[test]
fn a_syncer_that_cannot_be_told_to_stop_keeps_its_place() {
    let mut runtime = with_swap();
    let (_, after) = sent(ctl(&mut runtime, SWAPD, Request::SwapOutcome(Outcome::Refund)));
    let (e, after) = sent(runtime.sent(after, Ok(())));
    let kept = e.dest;
    let (_, after) = sent(runtime.sent(after, unsent()));
    assert!(matches!(runtime.sent(after, Ok(())), Step::Done));
    assert_eq!(runtime.stats.refund, 1);
    assert_eq!(runtime.syncer_clients.len(), 1);
    assert_eq!(runtime.syncer_services.len(), 1);
    match kept {
        ServiceId::Syncer(chain) => {
            assert!(runtime.syncer_services.contains_key(&chain));
            assert!(runtime.syncer_clients.get(&chain).unwrap().is_empty());
        }
        other => panic!("{:?}", other),
    }
}

#[test]
fn a_swap_that_cannot_be_told_to_stop() {
    let mut runtime = with_swap();
    let (_, after) = sent(ctl(&mut runtime, SWAPD, Request::SwapOutcome(Outcome::Punish)));
    assert!(matches!(
        runtime.sent(after, unsent()),
        Step::Fail(Error::Send(words)) if words == "no route"
    ));
    assert!(!runtime.running_swaps.contains(&SWAP));
    assert_eq!(runtime.stats.punish, 0);
    assert_eq!(runtime.consumed_offers.len(), 1);
    assert!(matches!(
        ctl(&mut runtime, CLIENT, Request::SwapOutcome(Outcome::Buy)),
        Step::Fail(Error::NotSwapd)
    ));
}

#[test]
fn what_others_use_is_left_alone() {
    let mut runtime = with_swap();
    let other = SwapId { hi: 0, lo: 0xcc };
    // Another swap follows Bitcoin, and another offer is listened for at the same address.
    let mut clients = runtime.syncer_clients.remove(&BITCOIN).unwrap();
    clients.insert(other);
    runtime.syncer_clients.insert(BITCOIN, clients);
    let mut second = proto(9735, false);
    second.offer = terms(OfferId { uuid: 2 });
    second.public_addr = bind(80);
    let step = ctl(&mut runtime, CLIENT, Request::MakeOffer(second));
    answers(&mut runtime, step);
    ctl(&mut runtime, ServiceId::Peer(maker()), Request::Hello);
    let (_, after) = sent(ctl(&mut runtime, SWAPD, Request::SwapOutcome(Outcome::Buy)));
    let (e, after) = sent(runtime.sent(after, Ok(())));
    assert_eq!(e.dest, ServiceId::Syncer(MONEROS));
    assert!(matches!(runtime.sent(after, Ok(())), Step::Done));
    assert!(runtime.connections.contains(&maker()));
    assert_eq!(runtime.syncer_clients.get(&BITCOIN).unwrap().to_vec(), vec![other]);
    assert!(runtime.syncer_services.contains_key(&BITCOIN));
    assert!(!runtime.syncer_services.contains_key(&MONEROS));
    assert!(runtime.listens.contains_key(&OfferId { uuid: 2 }));
}

#[test]
fn clients_are_told_what_there_is() {
    let mut runtime = with_offer();
    ctl(&mut runtime, ServiceId::Peer(maker()), Request::Hello);
    ctl(&mut runtime, SWAPD, Request::Hello);
    let (e, _) = sent(ctl(&mut runtime, CLIENT, Request::GetInfo));
    assert_eq!(e.dest, CLIENT);
    match e.request {
        Request::NodeInfo(info) => {
            assert_eq!(info.node_ids, vec![maker_key()]);
            assert_eq!(info.listens, vec![bind(9735)]);
            assert_eq!(info.uptime, 100_000_000_005);
            assert_eq!(info.since, 900);
            assert_eq!(info.peers, vec![maker()]);
            assert_eq!(info.swaps, vec![SWAP]);
            assert_eq!(info.offers, vec![public_offer()]);
        }
        other => panic!("{:?}", other),
    }
    let (e, _) = sent(ctl(&mut runtime, CLIENT, Request::ListPeers));
    assert_eq!(e.request, Request::PeerList(vec![maker()]));
    let (e, _) = sent(ctl(&mut runtime, CLIENT, Request::ListSwaps));
    assert_eq!(e.request, Request::SwapList(vec![SWAP]));
    let (e, _) = sent(ctl(&mut runtime, CLIENT, Request::ListOffers));
    assert_eq!(e.request, Request::OfferList(vec![public_offer()]));
    let (e, _) = sent(ctl(&mut runtime, CLIENT, Request::ListListens));
    assert_eq!(
        e.request,
        Request::ListenList(vec!["lnp://127.0.0.1:9735".to_string()])
    );
}

#[test]
fn consumed_offers_are_not_listed() {
    let mut runtime = with_offer();
    runtime.consumed_offers.insert(OFFER, SWAP);
    let (e, _) = sent(ctl(&mut runtime, CLIENT, Request::ListOffers));
    assert_eq!(e.request, Request::OfferList(Vec::new()));
    let (e, _) = sent(ctl(&mut runtime, CLIENT, Request::GetInfo));
    match e.request {
        Request::NodeInfo(info) => assert_eq!(info.offers.len(), 1),
        other => panic!("{:?}", other),
    }
}

#[test]
fn node_keys_are_listed_once_and_listeners_for_each_offer() {
    let mut runtime = with_offer();
    runtime.node_ids.insert(OfferId { uuid: 2 }, maker_key());
    runtime.listens.insert(OfferId { uuid: 2 }, bind(9735));
    let (e, _) = sent(ctl(&mut runtime, CLIENT, Request::GetInfo));
    match e.request {
        Request::NodeInfo(info) => {
            assert_eq!(info.node_ids, vec![maker_key()]);
            assert_eq!(info.listens, vec![bind(9735), bind(9735)]);
        }
        other => panic!("{:?}", other),
    }
}

#[test]
fn progress_is_told_in_order() {
    let mut runtime = start();
    let words = |s: &str| Notice::Words(s.to_string());
    ctl(&mut runtime, SWAPD, Request::Progress(words("one")));
    ctl(&mut runtime, SWAPD, Request::Failure { code: 3, info: words("two") });
    ctl(&mut runtime, SWAPD, Request::Success(Some(words("three"))));
    let step = ctl(&mut runtime, CLIENT, Request::ReadProgress(SWAP));
    assert_eq!(
        answers(&mut runtime, step),
        vec![
            (CLIENT, Request::Progress(words("one"))),
            (CLIENT, Request::Progress(words("two"))),
            (CLIENT, Request::Success(Some(words("three")))),
        ]
    );
    // It is kept, and told again.
    let step = ctl(&mut runtime, CLIENT, Request::ReadProgress(SWAP));
    assert_eq!(answers(&mut runtime, step).len(), 3);
    ctl(&mut runtime, SWAPD, Request::Success(None));
    assert!(!runtime.admits(CLIENT, &Request::ReadProgress(SWAP)));
}

#[test]
fn swaps_without_progress() {
    let mut runtime = with_offer();
    let (e, _) = sent(ctl(&mut runtime, CLIENT, Request::ReadProgress(SWAP)));
    assert_eq!(
        e.request,
        Request::Failure { code: 1, info: Notice::UnknownSwapd }
    );
    let (_, after) = launched(ctl(
        &mut runtime,
        ServiceId::Wallet,
        Request::LaunchSwap(launch_swap(TradeRole::Maker)),
    ));
    runtime.launched(after, Ok(1));
    let (e, _) = sent(ctl(&mut runtime, CLIENT, Request::ReadProgress(SWAP)));
    assert_eq!(
        e.request,
        Request::Failure { code: 1, info: Notice::NoProgressYet }
    );
}

#[test]
fn answers_stop_where_one_cannot_be_sent() {
    let mut runtime = start();
    let words = Notice::Words("x".to_string());
    ctl(&mut runtime, SWAPD, Request::Progress(words.clone()));
    ctl(&mut runtime, SWAPD, Request::Progress(words));
    let (_, after) = sent(ctl(&mut runtime, CLIENT, Request::ReadProgress(SWAP)));
    assert!(matches!(
        runtime.sent(after, unsent()),
        Step::Fail(Error::Send(words)) if words == "no route"
    ));
}

fn bitcoin(swap_id: SwapId, amount: u64) -> FundingInfo {
    FundingInfo::Bitcoin { swap_id, address: address(), amount }
}

fn monero(swap_id: SwapId, amount: u64) -> FundingInfo {
    FundingInfo::Monero {
        swap_id,
        address: MoneroAddress {
            network: MoneroNetwork::Testnet,
            text: MONERO.to_string(),
        },
        amount,
    }
}

#[test]
fn funding_is_noted_and_settled() {
    let mut runtime = start();
    assert!(matches!(
        ctl(&mut runtime, SWAPD, Request::FundingInfo(bitcoin(SWAP, 5))),
        Step::Done
    ));
    assert!(matches!(
        ctl(&mut runtime, SWAPD, Request::FundingInfo(monero(SWAP, 6))),
        Step::Done
    ));
    assert_eq!(runtime.stats.awaiting_funding_btc, 1);
    assert_eq!(runtime.stats.awaiting_funding_xmr, 1);
    let (infos, after) =
        described(ctl(&mut runtime, CLIENT, Request::NeedsFunding(Coin::Bitcoin)));
    assert_eq!(infos, vec![bitcoin(SWAP, 5)]);
    assert_eq!(after, AfterDescribe { dest: CLIENT, total: 1 });
    let (e, after) = sent(runtime.described(after, vec!["5 to an address".to_string()]));
    assert_eq!(e.bus, ServiceBus::Ctl);
    assert_eq!(e.source, ServiceId::Farcasterd);
    assert_eq!(e.dest, CLIENT);
    assert_eq!(e.request, Request::String("5 to an address".to_string()));
    assert_eq!(after, AfterSend::Finish);
    assert!(matches!(
        ctl(&mut runtime, SWAPD, Request::FundingCompleted(Coin::Bitcoin)),
        Step::Done
    ));
    assert_eq!(runtime.stats.awaiting_funding_btc, 0);
    assert_eq!(runtime.stats.funded_btc, 1);
    // Once is enough.
    ctl(&mut runtime, SWAPD, Request::FundingCompleted(Coin::Bitcoin));
    assert_eq!(runtime.stats.funded_btc, 1);
    ctl(&mut runtime, SWAPD, Request::FundingCanceled(Coin::Monero));
    assert_eq!(runtime.stats.awaiting_funding_xmr, 0);
    assert_eq!(runtime.stats.funding_canceled_xmr, 1);
    let (infos, after) = described(ctl(&mut runtime, CLIENT, Request::NeedsFunding(Coin::Monero)));
    assert_eq!(infos, Vec::new());
    let (e, _) = sent(runtime.described(after, Vec::new()));
    assert_eq!(e.request, Request::String(String::new()));
    assert!(matches!(
        ctl(&mut runtime, CLIENT, Request::FundingCompleted(Coin::Monero)),
        Step::Fail(Error::NotSwapd)
    ));
    assert!(matches!(
        ctl(&mut runtime, CLIENT, Request::FundingCanceled(Coin::Monero)),
        Step::Fail(Error::NotSwapd)
    ));
}

#[test]
fn a_canceled_bitcoin_funding_is_counted_off_from_monero() {
    let mut runtime = start();
    ctl(&mut runtime, SWAPD, Request::FundingInfo(bitcoin(SWAP, 5)));
    assert!(!runtime.admits(SWAPD, &Request::FundingCanceled(Coin::Bitcoin)));
    ctl(
        &mut runtime,
        SWAPD,
        Request::FundingInfo(monero(SwapId { hi: 1, lo: 1 }, 5)),
    );
    ctl(&mut runtime, SWAPD, Request::FundingCanceled(Coin::Bitcoin));
    assert_eq!(runtime.stats.awaiting_funding_btc, 1);
    assert_eq!(runtime.stats.awaiting_funding_xmr, 0);
    assert_eq!(runtime.funding_btc.len(), 0);
    assert_eq!(runtime.funding_xmr.len(), 1);
}

#[test]
fn coins_are_sent_where_that_is_set_up() {
    let (_, mut runtime) = run(config(true), "token".to_string(), NOW);
    let (info, wallet) =
        match ctl(&mut runtime, SWAPD, Request::FundingInfo(bitcoin(SWAP, 5))) {
            Step::Fund(info, wallet) => (info, wallet),
            other => panic!("{:?}", other),
        };
    assert_eq!(
        wallet,
        FundingWallet::Bitcoin { rpc: "btc".to_string(), cookie_path: "cookie".to_string() }
    );
    runtime.funded(info, true);
    let (info, wallet) = match ctl(&mut runtime, SWAPD, Request::FundingInfo(monero(SWAP, 6))) {
        Step::Fund(info, wallet) => (info, wallet),
        other => panic!("{:?}", other),
    };
    assert_eq!(wallet, FundingWallet::Monero { rpc: "xmr".to_string() });
    runtime.funded(info, false);
    // Those that were sent are not listed, those that failed are.
    let (infos, _) = described(ctl(&mut runtime, CLIENT, Request::NeedsFunding(Coin::Bitcoin)));
    assert_eq!(infos, Vec::new());
    let (infos, _) = described(ctl(&mut runtime, CLIENT, Request::NeedsFunding(Coin::Monero)));
    assert_eq!(infos, vec![monero(SWAP, 6)]);
}

#[test]
fn lines_end_with_newlines_but_for_the_last_of_all() {
    let (_, mut runtime) = run(config(true), "token".to_string(), NOW);
    for (lo, ok) in [(1u128, false), (2, true), (3, false)] {
        let info = bitcoin(SwapId { hi: 0, lo }, 5);
        match ctl(&mut runtime, SWAPD, Request::FundingInfo(info)) {
            Step::Fund(info, _) => runtime.funded(info, ok),
            other => panic!("{:?}", other),
        }
    }
    let (infos, after) =
        described(ctl(&mut runtime, CLIENT, Request::NeedsFunding(Coin::Bitcoin)));
    assert_eq!(infos.len(), 2);
    assert_eq!(after.total, 3);
    // The swap whose coins were sent is counted too, so both lines have one.
    let lines = vec!["one".to_string(), "three".to_string()];
    let (e, _) = sent(runtime.described(after, lines));
    assert_eq!(e.request, Request::String("one\nthree\n".to_string()));
}

#[test]
fn lines_are_parted_by_newlines() {
    let mut runtime = start();
    for lo in 1u128..4 {
        ctl(&mut runtime, SWAPD, Request::FundingInfo(monero(SwapId { hi: 0, lo }, 5)));
    }
    let (infos, after) = described(ctl(&mut runtime, CLIENT, Request::NeedsFunding(Coin::Monero)));
    assert_eq!(infos.len(), 3);
    let lines = vec!["a".to_string(), "b".to_string(), "c".to_string()];
    let (e, _) = sent(runtime.described(after, lines));
    assert_eq!(e.request, Request::String("a\nb\nc".to_string()));
}

#[test]
fn counts_that_are_full_are_not_admitted() {
    let mut runtime = with_offer();
    runtime.stats.success = u64::MAX;
    runtime.stats.initialized = u64::MAX;
    runtime.stats.awaiting_funding_btc = u64::MAX;
    assert!(!runtime.admits(SWAPD, &Request::SwapOutcome(Outcome::Buy)));
    assert!(runtime.admits(SWAPD, &Request::SwapOutcome(Outcome::Refund)));
    assert!(runtime.admits(CLIENT, &Request::SwapOutcome(Outcome::Buy)));
    assert!(!runtime.admits(
        ServiceId::Wallet,
        &Request::LaunchSwap(launch_swap(TradeRole::Maker))
    ));
    assert!(!runtime.admits(SWAPD, &Request::FundingInfo(bitcoin(SWAP, 1))));
    assert!(runtime.admits(SWAPD, &Request::FundingInfo(monero(SWAP, 1))));
    assert!(!runtime.admits_after(&AfterSend::SwapStopped {
        swap: SWAP,
        outcome: Outcome::Buy
    }));
    assert!(runtime.admits_after(&AfterSend::Finish));
}

#[test]
fn messages_have_their_words() {
    assert_eq!(
        Notice::SwapOperational(SWAPD).render("swap<aa>"),
        "Swap daemon swap<aa> operational"
    );
    assert_eq!(Notice::ConnectedTo(CLIENT).render("peer"), "Connected to peer");
    assert_eq!(
        Notice::PeerdLaunched(42).render("42"),
        "New instance of peerd launched with PID 42"
    );
    assert_eq!(
        Notice::AlreadyListening(bind(1)).render("127.0.0.1:1"),
        "Already listening on 127.0.0.1:1"
    );
    assert_eq!(
        Notice::AlreadyConnected(maker()).render("m"),
        "Already connected to remote peer m"
    );
    assert_eq!(
        Notice::ShareOffer(TEXT.to_string()).render("Offer:x"),
        "Public offer registered, please share with taker:  Offer:x"
    );
    assert_eq!(
        Notice::OfferRegistered(OFFER).render("67e5"),
        "Public offer registered: 67e5"
    );
    assert_eq!(
        Notice::OfferTaken(TEXT.to_string()).render("Offer:x"),
        "Offer:x already exists or was already taken, ignoring request"
    );
    assert_eq!(
        Notice::OfferKnown.render("ignored"),
        "This Public offer was previously registered"
    );
    assert_eq!(
        Notice::NoProgressYet.render("ignored"),
        "No progress made yet on this swap"
    );
    assert_eq!(Notice::UnknownSwapd.render("ignored"), "Unknown swapd");
    let trouble = Notice::Trouble(Error::Launch("no such file".to_string()));
    assert_eq!(trouble.subject(), Some("no such file".to_string()));
    assert_eq!(trouble.render("no such file"), "no such file");
    assert_eq!(Notice::Words("hello".to_string()).render("ignored"), "hello");
}

fn piece(style: Style, text: &str) -> Piece {
    Piece { style, text: text.to_string() }
}

#[test]
fn messages_have_their_looks() {
    assert_eq!(
        Notice::ShareOffer(TEXT.to_string()).pieces(TEXT),
        vec![
            piece(Style::BrightBlueBold, "Public offer registered, please share with taker: "),
            piece(Style::Plain, " "),
            piece(Style::BrightYellowBold, TEXT),
        ]
    );
    assert_eq!(
        Notice::OfferRegistered(OFFER).pieces("67e5"),
        vec![
            piece(Style::BrightGreenBold, "Public offer registered"),
            piece(Style::Plain, ": "),
            piece(Style::BrightYellowBold, "67e5"),
        ]
    );
    assert_eq!(
        Notice::AlreadyConnected(maker()).pieces("m"),
        vec![
            piece(Style::Plain, "Already connected to remote peer "),
            piece(Style::BrightBlueItalic, "m"),
        ]
    );
    for notice in [
        Notice::SwapOperational(SWAPD),
        Notice::PeerdLaunched(1),
        Notice::OfferTaken(TEXT.to_string()),
        Notice::OfferKnown,
        Notice::Words("hello".to_string()),
    ] {
        assert!(notice.pieces("x").iter().all(|p| p.style == Style::Plain));
    }
}

#[test]
fn messages_are_about_something() {
    assert_eq!(Notice::PeerdLaunched(42).subject(), Some("42".to_string()));
    assert_eq!(Notice::AlreadyConnected(maker()).subject(), Some(maker().to_text()));
    assert_eq!(Notice::ShareOffer(TEXT.to_string()).subject(), Some(TEXT.to_string()));
    assert_eq!(Notice::OfferTaken(TEXT.to_string()).subject(), Some(TEXT.to_string()));
    assert_eq!(
        Notice::OfferRegistered(OFFER).subject(),
        Some("67e55044-10b1-426f-9247-bb680e5fe0c8".to_string())
    );
    assert_eq!(Notice::OfferKnown.subject(), None);
}

#[test]
fn errors_hold_their_words() {
    assert_eq!(
        Error::AlreadyConnected(maker()).details(),
        Some(
            "Already connected to peer 02e77b779cdc2c713823f7a19147a67e4209c74d77e2cb5045bce0584a6be064d4@127.0.0.1:9735"
                .to_string()
        )
    );
    for (error, words) in [
        (Error::Send("a".to_string()), "a"),
        (Error::Launch("b".to_string()), "b"),
        (Error::Connection("c".to_string()), "c"),
        (Error::OfferFormat(Some("d".to_string())), "d"),
        (Error::AddressFormat(Some("e".to_string())), "e"),
        (Error::UnknownOffer, "unknown public_offer"),
        (Error::UnknownSwapd, "Unknown swapd"),
        (
            Error::UnexpectedPending,
            "Unexpected request: calling back from Keypair handling",
        ),
        (Error::OnlyTcp, "Only TCP is supported for now as an overlay protocol"),
    ] {
        assert_eq!(error.clone(), error);
        assert_eq!(error.details(), Some(words.to_string()));
    }
    assert_eq!(Error::NotSwapd.details(), None);
    assert_eq!(Error::OfferFormat(None).details(), None);
    assert_eq!(Error::AddressFormat(None).clone(), Error::AddressFormat(None));
}

#[test]
fn the_wallet_is_sent_a_message() {
    let runtime = start();
    let (e, after) = sent(runtime.send_walletd(Request::Terminate));
    assert_eq!(e.dest, ServiceId::Wallet);
    assert_eq!(e.source, ServiceId::Farcasterd);
    assert_eq!(e.request, Request::Terminate);
    assert_eq!(after, AfterSend::Finish);
}
