use bitcoin::hashes::hex::ToHex;
use farcaster_node::addr::{
    InetSocketAddr, IpAddr, NodeAddr, OnionKey, RemoteSocketAddr,
};
use farcaster_node::chain::{BitcoinNetwork, Coin, MoneroAddress, MoneroNetwork, Network};
use farcaster_node::ident::{OfferId, PublicKey, SecretKey, SwapId};
use farcaster_node::text::{decimal_text, hex_text};
use std::str::FromStr;

const LOCALHOST: u32 = 0x7f00_0001;

fn node_key() -> PublicKey {
    // 02e77b779cdc2c713823f7a19147a67e4209c74d77e2cb5045bce0584a6be064d4
    PublicKey {
        odd: false,
        hi: 0xe77b779cdc2c713823f7a19147a67e42,
        lo: 0x09c74d77e2cb5045bce0584a6be064d4,
    }
}

// The key of the base point of the curve.
fn onion() -> OnionKey {
    OnionKey::new(
        0x58666666666666666666666666666666,
        0x66666666666666666666666666666666,
    )
    .unwrap()
}

#[test]
fn identifiers_in_hex() {
    let id = SwapId { hi: 1, lo: 0xabcdef };
    assert_eq!(
        id.to_hex(),
        "0000000000000000000000000000000100000000000000000000000000abcdef"
    );
    let key = SecretKey { hi: u128::MAX, lo: 0 };
    assert_eq!(
        key.to_hex(),
        "ffffffffffffffffffffffffffffffff00000000000000000000000000000000"
    );
    assert_eq!(
        node_key().to_hex(),
        "02e77b779cdc2c713823f7a19147a67e4209c74d77e2cb5045bce0584a6be064d4"
    );
    let odd = PublicKey { odd: true, hi: 0, lo: 10 };
    assert_eq!(
        odd.to_hex(),
        "03000000000000000000000000000000000000000000000000000000000000000a"
    );
}

#[test]
fn hex_is_that_of_the_bitcoin_crate() {
    for n in [0u128, 0x0123456789abcdef0123456789abcdef, u128::MAX] {
        let id = SwapId { hi: n, lo: !n };
        let bytes = [n.to_be_bytes(), (!n).to_be_bytes()].concat();
        assert_eq!(id.to_hex(), bytes.as_slice().to_hex());
    }
    assert_eq!(hex_text(0x1f, 0), "");
    assert_eq!(hex_text(0x1f, 1), "f");
    assert_eq!(hex_text(0x1f, 4), "001f");
}

#[test]
fn offer_identifiers_are_those_of_the_uuid_crate() {
    for uuid in [0u128, 0x67e55044_10b1_426f_9247_bb680e5fe0c8, u128::MAX, 1 << 80] {
        let theirs = uuid::Uuid::from_u128(uuid);
        assert_eq!(OfferId { uuid }.to_text(), theirs.to_string());
        assert_eq!(OfferId { uuid }.to_text(), format!("{:#}", theirs));
    }
}

#[test]
fn addresses_are_those_of_the_internet2_crate() {
    for ip in [0u32, 0x0100_0a64, 0x7f00_0001, u32::MAX] {
        let addr = internet2::addr::InetAddr::from(ip.to_be_bytes());
        assert_eq!(IpAddr::V4(ip).to_text(), addr.to_string());
    }
    for ip in [0u128, 1, 0x2001_0db8 << 96, 0xffff_7f00_0001, u128::MAX] {
        let addr = internet2::addr::InetAddr::from(ip.to_be_bytes());
        assert_eq!(IpAddr::V6(ip).to_text(), addr.to_string());
        let socket = InetSocketAddr::IPv6 { ip, port: 9735 };
        assert_eq!(socket.to_text(), format!("[{}]:9735", addr));
    }
}

#[test]
fn numbers_in_decimal() {
    assert_eq!(decimal_text(0), "0");
    assert_eq!(decimal_text(9), "9");
    assert_eq!(decimal_text(10), "10");
    assert_eq!(decimal_text(9735), "9735");
    assert_eq!(decimal_text(u64::MAX), "18446744073709551615");
}

#[test]
fn ip_addresses_are_written() {
    assert_eq!(IpAddr::V4(LOCALHOST).to_text(), "127.0.0.1");
    assert_eq!(IpAddr::V4(0).to_text(), "0.0.0.0");
    assert_eq!(IpAddr::V4(0xc0a8_0a14).to_text(), "192.168.10.20");
    assert_eq!(IpAddr::V6(1).to_text(), "::1");
}

#[test]
fn sockets_are_written() {
    let v4 = InetSocketAddr::IPv4 { ip: LOCALHOST, port: 9735 };
    assert_eq!(v4.to_text(), "127.0.0.1:9735");
    assert_eq!(v4.ip_and_port(), Some((IpAddr::V4(LOCALHOST), 9735)));
    let v6 = InetSocketAddr::IPv6 { ip: 1, port: 80 };
    assert_eq!(v6.to_text(), "[::1]:80");
    assert_eq!(v6.ip_and_port(), Some((IpAddr::V6(1), 80)));
    let tor = InetSocketAddr::Tor(onion());
    assert_eq!(tor.ip_and_port(), None);
    let mut bytes = [0x66u8; 32];
    bytes[0] = 0x58;
    let key = torut::onion::TorPublicKeyV3::from_bytes(&bytes).unwrap();
    assert_eq!(
        tor.to_text(),
        internet2::addr::InetSocketAddr::tor3(key).to_string()
    );
}

#[test]
fn some_bytes_are_no_onion_key() {
    let mut keys = 0;
    let mut others = 0;
    for lo in 0u128..64 {
        let hi = lo << 120;
        match OnionKey::new(hi, lo) {
            Some(key) => {
                assert_eq!(key.halves(), (hi, lo));
                keys += 1;
            }
            None => others += 1,
        }
    }
    assert!(keys > 0);
    assert!(others > 0);
}

#[test]
fn urls_have_the_scheme_of_the_protocol() {
    let a = InetSocketAddr::IPv4 { ip: LOCALHOST, port: 9735 };
    assert_eq!(RemoteSocketAddr::Ftcp(a).to_url_string(), "lnp://127.0.0.1:9735");
    assert_eq!(RemoteSocketAddr::Zmq(a).to_url_string(), "lnpz://127.0.0.1:9735");
    assert_eq!(RemoteSocketAddr::Http(a).to_url_string(), "lnph://127.0.0.1:9735");
    assert_eq!(
        RemoteSocketAddr::Websocket(a).to_url_string(),
        "lnpws://127.0.0.1:9735"
    );
    assert_eq!(RemoteSocketAddr::Smtp(a).to_url_string(), "lnpm://127.0.0.1:9735");
    assert_eq!(RemoteSocketAddr::Smtp(a).inet(), a);
}

#[test]
fn nodes_are_written() {
    let node = NodeAddr {
        node_id: node_key(),
        remote_addr: RemoteSocketAddr::Ftcp(InetSocketAddr::IPv4 {
            ip: LOCALHOST,
            port: 9735,
        }),
    };
    assert_eq!(
        node.to_text(),
        "02e77b779cdc2c713823f7a19147a67e4209c74d77e2cb5045bce0584a6be064d4@127.0.0.1:9735"
    );
}

#[test]
fn networks_have_a_kind() {
    assert_eq!(BitcoinNetwork::Bitcoin.network(), Network::Mainnet);
    assert_eq!(BitcoinNetwork::Testnet.network(), Network::Testnet);
    assert_eq!(BitcoinNetwork::Signet.network(), Network::Testnet);
    assert_eq!(BitcoinNetwork::Regtest.network(), Network::Local);
    assert_eq!(MoneroNetwork::Mainnet.network(), Network::Mainnet);
    assert_eq!(MoneroNetwork::Stagenet.network(), Network::Testnet);
    assert_eq!(MoneroNetwork::Testnet.network(), Network::Local);
    assert_eq!(Network::Local.name(), "Local");
    assert_eq!(Coin::Monero.name(), "Monero");
}

#[test]
fn monero_addresses_are_read() {
    let standard = "4ADT1BtbxqEWeMKp9GgPr2NeyJXXtNxvoDawpyA4WpzFcGcoHUvXeijE66DNfohE9r1bQYaBiQjEtKE7CtkTdLwiDznFzra";
    let integrated = "4Byr22j9M2878Mtyb3fEPcBNwBZf5EXqn1Yi6VzR46618SFBrYysab2Cs1474CVDbsh94AJq7vuV3Z2DRq4zLcY3LHzo1Nbv3d8J6VhvCV";
    for text in [standard, integrated] {
        let address = MoneroAddress::from_text(text.to_string()).unwrap();
        assert_eq!(address.network, MoneroNetwork::Mainnet);
        assert_eq!(address.text, text);
    }
}

#[test]
fn monero_addresses_of_other_networks_are_read() {
    let text = "4ADT1BtbxqEWeMKp9GgPr2NeyJXXtNxvoDawpyA4WpzFcGcoHUvXeijE66DNfohE9r1bQYaBiQjEtKE7CtkTdLwiDznFzra";
    let mut address = monero::Address::from_str(text).unwrap();
    address.network = monero::Network::Stagenet;
    let stagenet = MoneroAddress::from_text(address.to_string()).unwrap();
    assert_eq!(stagenet.network, MoneroNetwork::Stagenet);
    address.network = monero::Network::Testnet;
    let testnet = MoneroAddress::from_text(address.to_string()).unwrap();
    assert_eq!(testnet.network, MoneroNetwork::Testnet);
}

#[test]
fn other_texts_are_no_monero_address() {
    let text = "4ADT1BtbxqEWeMKp9GgPr2NeyJXXtNxvoDawpyA4WpzFcGcoHUvXeijE66DNfohE9r1bQYaBiQjEtKE7CtkTdLwiDznFzra";
    let words = |text: &str| MoneroAddress::from_text(text.to_string()).unwrap_err();
    // A changed letter breaks the checksum.
    assert_eq!(words(&text.replace("zra", "zrb")), Some("Invalid checksum".to_string()));
    // Every text that is cut off: where there are words, they are those of the monero crate.
    for n in 0..text.len() {
        if let Some(error) = words(&text[..n]) {
            let theirs = monero::Address::from_str(&text[..n]).unwrap_err();
            assert_eq!(error, theirs.to_string());
        }
    }
    assert_eq!(words(""), None);
    // No letters of the alphabet.
    assert_eq!(
        words(&"0OIl".repeat(24)),
        Some("Base58 error: Invalid symbol error".to_string())
    );
    // The first byte is none of an address.
    assert_eq!(
        words("11"),
        Some("Network error: Invalid magic network byte".to_string())
    );
    // An integrated address without its payment identifier.
    let integrated = "4Byr22j9M2878Mtyb3fEPcBNwBZf5EXqn1Yi6VzR46618SFBrYysab2Cs1474CVDbsh94AJq7vuV3Z2DRq4zLcY3LHzo1Nbv3d8J6VhvCV";
    for n in 0..integrated.len() {
        assert!(MoneroAddress::from_text(integrated[..n].to_string()).is_err());
    }
}
