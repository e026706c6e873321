use farcaster_core::blockchain::Network as CoreNetwork;
use farcaster_core::consensus::serialize;
use farcaster_core::swap::btcxmr;
use farcaster_node::addr::{InetSocketAddr, OnionKey};
use farcaster_node::chain::Network;
use farcaster_node::ident::{OfferId, PublicKey};
use farcaster_node::offer::{offer_text, Offer, PublicOffer, TradeRole};
use std::str::FromStr;
use uuid::Uuid;

const TEXT: &str = "Offer:Cke4ftrP5A7CRkYdGNd87TRU6sUP1kBKM1W723UjzEWsNR4gmBqNCsR11111uMFubBevJ2E5fp6ZR11111TBALTh113GTvtvqfD1111114A4TTfifktDH7QZD71vpdfo6EVo2ds7KviHz7vYbLZDkgsMNb11111111111111111111111111111111111111111AfZ113XRBuL3QS1m";
const UUID: u128 = 0x67e55044_10b1_426f_9247_bb680e5fe0c8;

fn encoding() -> Vec<u8> {
    serialize(&btcxmr::PublicOffer::from_str(TEXT).unwrap().offer)
}

fn offer() -> Offer {
    Offer::new(encoding()).unwrap()
}

fn node_key() -> PublicKey {
    PublicKey {
        odd: false,
        hi: 0xe77b779cdc2c713823f7a19147a67e42,
        lo: 0x09c74d77e2cb5045bce0584a6be064d4,
    }
}

fn localhost(port: u16) -> InetSocketAddr {
    InetSocketAddr::IPv4 { ip: 0x7f00_0001, port }
}

#[test]
fn an_offer_is_made_public() {
    let public = offer().to_public_v1(node_key(), localhost(9735)).unwrap();
    assert_eq!(public.text(), TEXT);
    assert_eq!(public.id(), OfferId { uuid: UUID });
    assert_eq!(public.network(), Network::Local);
    assert_eq!(public.node_id(), node_key());
    assert_eq!(public.peer_address(), localhost(9735));
}

#[test]
fn the_text_of_an_offer_depends_on_its_node() {
    let a = offer().to_public_v1(node_key(), localhost(9735)).unwrap();
    let b = offer().to_public_v1(node_key(), localhost(9736)).unwrap();
    assert_ne!(a.text(), b.text());
}

#[test]
fn a_public_offer_is_read_back() {
    let onion = OnionKey::new(
        0x58666666666666666666666666666666,
        0x66666666666666666666666666666666,
    )
    .unwrap();
    let sockets = [
        localhost(9735),
        localhost(1),
        InetSocketAddr::IPv6 { ip: 0x2001_0db8 << 96, port: 65535 },
        InetSocketAddr::Tor(onion),
    ];
    for socket in sockets {
        let public = offer().to_public_v1(node_key(), socket).unwrap();
        assert_eq!(offer_text(public.text()), Ok(public.text().clone()));
        let core = btcxmr::PublicOffer::from_str(public.text()).unwrap();
        assert_eq!(core.id().as_u128(), UUID);
        assert_eq!(&core.to_string(), public.text());
    }
}

#[test]
fn a_public_offer_without_a_port_is_not_read_back() {
    let public = offer().to_public_v1(node_key(), localhost(0)).unwrap();
    assert_ne!(offer_text(public.text()), Ok(public.text().clone()));
}

#[test]
fn the_text_of_a_public_offer_is_read() {
    assert_eq!(offer_text(TEXT), Ok(TEXT.to_string()));
}

#[test]
fn other_texts_are_no_offer() {
    let magic = Err(Some("Incorrect magic bytes".to_string()));
    assert_eq!(offer_text(""), Err(None));
    assert_eq!(offer_text("Offer"), Err(None));
    assert_eq!(offer_text("Offer:"), Err(None));
    assert_eq!(offer_text("Offer:11111"), Err(None));
    assert_eq!(offer_text("Bid:__"), magic);
    assert_eq!(offer_text(&TEXT[1..]), magic);
    assert_eq!(offer_text(&TEXT.replace("Offer:", "Bid:__")), magic);
    // The sixth byte is inside a letter.
    assert_eq!(offer_text("Offer\u{e9}11111111111"), Err(None));
    for text in [
        "Offer:111111".to_string(),
        "Offer:0000000".to_string(),
        TEXT[..TEXT.len() - 1].to_string(),
        TEXT.replace("QS1m", "QS1n"),
    ] {
        let words = btcxmr::PublicOffer::from_str(&text).unwrap_err().to_string();
        assert!(!words.is_empty());
        assert_eq!(offer_text(&text), Err(Some(words)));
    }
}

#[test]
fn an_offer_is_read_from_its_encoding() {
    assert_eq!(offer().id(), OfferId { uuid: UUID });
    assert_eq!(offer().encoding(), &encoding());
    let mut other = btcxmr::PublicOffer::from_str(TEXT).unwrap().offer;
    other.uuid = Uuid::from_u128(7);
    let other = Offer::new(serialize(&other)).unwrap();
    assert_eq!(other.id(), OfferId { uuid: 7 });
    assert_ne!(other, offer());
    assert_eq!(other.clone(), other);
}

#[test]
fn networks_are_read_from_the_encoding() {
    for (core, network) in [
        (CoreNetwork::Mainnet, Network::Mainnet),
        (CoreNetwork::Testnet, Network::Testnet),
        (CoreNetwork::Local, Network::Local),
    ] {
        let mut terms = btcxmr::PublicOffer::from_str(TEXT).unwrap().offer;
        terms.network = core;
        let public = Offer::new(serialize(&terms))
            .unwrap()
            .to_public_v1(node_key(), localhost(9735))
            .unwrap();
        assert_eq!(public.network(), network);
    }
}

#[test]
fn offers_of_other_versions() {
    let first = PublicOffer::new(1, offer(), node_key(), localhost(9735)).unwrap();
    assert_eq!(first, offer().to_public_v1(node_key(), localhost(9735)).unwrap());
    let second = PublicOffer::new(2, offer(), node_key(), localhost(9735)).unwrap();
    assert_eq!(second.version(), 2);
    assert_eq!(second.offer(), &offer());
    assert_ne!(second.text(), first.text());
    assert_eq!(offer_text(second.text()), Ok(second.text().clone()));
    let core = btcxmr::PublicOffer::from_str(second.text()).unwrap();
    assert_eq!(core.version.to_u16(), 2);
    assert_eq!(second.clone(), second);
}

#[test]
fn bytes_that_are_no_offer() {
    let mut broken = encoding();
    broken.pop();
    assert!(Offer::new(broken).is_none());
    let mut longer = encoding();
    longer.push(0);
    assert!(Offer::new(longer).is_none());
    assert!(Offer::new(Vec::new()).is_none());
}

#[test]
fn a_key_that_is_none_makes_no_public_offer() {
    let zero = PublicKey { odd: false, hi: 0, lo: 0 };
    assert!(offer().to_public_v1(zero, localhost(9735)).is_none());
}

#[test]
fn roles_have_names() {
    assert_eq!(TradeRole::Maker.name(), "Maker");
    assert_eq!(TradeRole::Taker.name(), "Taker");
}
