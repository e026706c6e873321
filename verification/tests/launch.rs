use farcaster_node::addr::{InetSocketAddr, IpAddr, NodeAddr, RemoteSocketAddr};
use farcaster_node::chain::{Chain, Coin, Network};
use farcaster_node::config::{AutoFundingServers, Config, PerNetwork, SyncerServers};
use farcaster_node::farcasterd::launch::{
    connect_task, launch, launched_text, listen_task, swapd_task, syncer_servers_args, syncer_task,
    walletd_task, Daemon, SharedOpts, Task,
};
use farcaster_node::ident::{PublicKey, SecretKey, SwapId};
use farcaster_node::offer::TradeRole;
use farcaster_node::rpc::Error;

fn opts() -> SharedOpts {
    SharedOpts {
        verbose: 0,
        data_dir: None,
        msg_socket: None,
        ctl_socket: None,
        tor_proxy: None,
    }
}

fn config() -> Config {
    Config {
        auto_funding: true,
        funding_servers: PerNetwork {
            mainnet: None,
            testnet: None,
            local: Some(AutoFundingServers {
                bitcoin_cookie_path: "~/.bitcoin/.cookie".to_string(),
                bitcoin_rpc: "http://localhost:18443".to_string(),
                monero_rpc_wallet: "http://localhost:18083".to_string(),
            }),
        },
        syncer_servers: PerNetwork {
            mainnet: None,
            testnet: None,
            local: Some(SyncerServers {
                electrum_server: "tcp://localhost:60401".to_string(),
                monero_daemon: "http://localhost:18081".to_string(),
                monero_rpc_wallet: "http://localhost:18083".to_string(),
            }),
        },
    }
}

#[test]
fn the_own_arguments_come_last() {
    let task = Task {
        daemon: Daemon::Walletd,
        args: vec!["--token".to_string(), "abc".to_string()],
    };
    let all = SharedOpts {
        verbose: 3,
        data_dir: Some("/data".to_string()),
        msg_socket: Some("msg".to_string()),
        ctl_socket: Some("ctl".to_string()),
        tor_proxy: Some(Some("127.0.0.1:9050".to_string())),
    };
    let r = launch(task, &all);
    assert_eq!(r.program, "walletd");
    assert_eq!(
        r.args,
        vec![
            "-vvv", "-d", "/data", "-m", "msg", "-x", "ctl", "-T", "127.0.0.1:9050", "--token",
            "abc"
        ]
    );
}

#[test]
fn options_that_are_not_set_are_not_handed_on() {
    let task = Task { daemon: Daemon::Swapd, args: vec!["a".to_string()] };
    assert_eq!(launch(task, &opts()).args, vec!["a"]);
    let task = Task { daemon: Daemon::Peerd, args: Vec::new() };
    let r = launch(task, &SharedOpts { tor_proxy: Some(None), verbose: 1, ..opts() });
    assert_eq!(r.program, "peerd");
    assert_eq!(r.args, vec!["-v", "-T"]);
}

#[test]
fn the_wallet_gets_its_token() {
    let task = walletd_task("secret");
    assert_eq!(task.daemon, Daemon::Walletd);
    assert_eq!(task.args, vec!["--token", "secret"]);
}

#[test]
fn a_listener_gets_its_address_and_key() {
    let task = listen_task(
        IpAddr::V4(0x0a000001),
        9735,
        SecretKey { hi: 0, lo: 0x1f },
        "token",
    );
    assert_eq!(task.daemon, Daemon::Peerd);
    assert_eq!(
        task.args,
        vec![
            "--listen",
            "10.0.0.1",
            "--port",
            "9735",
            "--peer-secret-key",
            "000000000000000000000000000000000000000000000000000000000000001f",
            "--token",
            "token"
        ]
    );
}

#[test]
fn a_connector_gets_its_node_and_key() {
    let node = NodeAddr {
        node_id: PublicKey { odd: true, hi: 0, lo: 1 },
        remote_addr: RemoteSocketAddr::Ftcp(InetSocketAddr::IPv4 { ip: 0x0a000001, port: 7 }),
    };
    let task = connect_task(node, SecretKey { hi: 1, lo: 0 }, "token");
    assert_eq!(
        task.args,
        vec![
            "--connect",
            "030000000000000000000000000000000000000000000000000000000000000001@10.0.0.1:7",
            "--peer-secret-key",
            "0000000000000000000000000000000100000000000000000000000000000000",
            "--token",
            "token"
        ]
    );
}

#[test]
fn a_swap_gets_its_identifier_offer_and_role() {
    let task = swapd_task(SwapId { hi: 0, lo: 16 }, "Offer:xyz", TradeRole::Taker);
    assert_eq!(task.daemon, Daemon::Swapd);
    assert_eq!(
        task.args,
        vec![
            "0000000000000000000000000000000000000000000000000000000000000010",
            "Offer:xyz",
            "Taker"
        ]
    );
}

#[test]
fn a_syncer_gets_the_servers_of_its_chain() {
    let config = config();
    let bitcoin = Chain { coin: Coin::Bitcoin, network: Network::Local };
    let monero = Chain { coin: Coin::Monero, network: Network::Local };
    assert_eq!(
        syncer_servers_args(&config, bitcoin).unwrap(),
        vec!["--electrum-server", "tcp://localhost:60401"]
    );
    assert_eq!(
        syncer_servers_args(&config, monero).unwrap(),
        vec![
            "--monero-daemon",
            "http://localhost:18081",
            "--monero-rpc-wallet",
            "http://localhost:18083"
        ]
    );
    let task = syncer_task(&config, bitcoin).unwrap();
    assert_eq!(task.daemon, Daemon::Syncerd);
    assert_eq!(
        task.args,
        vec![
            "--coin",
            "Bitcoin",
            "--network",
            "Local",
            "--electrum-server",
            "tcp://localhost:60401"
        ]
    );
}

#[test]
fn a_chain_without_servers_has_no_syncer() {
    let config = config();
    let chain = Chain { coin: Coin::Monero, network: Network::Mainnet };
    assert_eq!(syncer_servers_args(&config, chain), Err(Error::InvalidConfig));
    assert_eq!(syncer_task(&config, chain), Err(Error::InvalidConfig));
}

#[test]
fn funding_is_set_up_by_network() {
    let mut config = config();
    assert!(config.is_auto_funding_enable());
    assert!(config.get_auto_funding_config(Network::Local).is_some());
    assert!(config.get_auto_funding_config(Network::Testnet).is_none());
    config.auto_funding = false;
    assert!(config.get_auto_funding_config(Network::Local).is_none());
}

#[test]
fn launched_daemons_have_a_text() {
    assert_eq!(
        launched_text(Daemon::Swapd, 42),
        "New instance of swapd launched with PID 42"
    );
    assert_eq!(
        launched_text(Daemon::Peerd, 0),
        "New instance of peerd launched with PID 0"
    );
}
