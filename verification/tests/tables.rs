use farcaster_node::chain::Coin;
use farcaster_node::clock::Moment;
use farcaster_node::farcasterd::stats::Stats;
use farcaster_node::ident::SwapId;
use farcaster_node::rpc::Outcome;
use farcaster_node::table::{Roster, Table};

fn id(lo: u128) -> SwapId {
    SwapId { hi: 0, lo }
}

#[test]
fn a_table_keeps_one_value_for_a_key() {
    let mut t: Table<SwapId, u8> = Table::new();
    assert_eq!(t.len(), 0);
    t.insert(id(1), 10);
    t.insert(id(2), 20);
    t.insert(id(1), 11);
    assert_eq!(t.len(), 2);
    assert_eq!(t.get(&id(1)), Some(&11));
    assert_eq!(t.get(&id(2)), Some(&20));
    assert_eq!(t.get(&id(3)), None);
    assert!(t.contains_key(&id(2)));
    assert_eq!(t.remove(&id(2)), Some(20));
    assert_eq!(t.remove(&id(2)), None);
    assert_eq!(t.keys(), vec![id(1)]);
    assert_eq!(t.entry(0), &(id(1), 11));
}

#[test]
fn a_table_is_keyed_by_text() {
    let mut t: Table<String, u8> = Table::new();
    t.insert("a".to_string(), 1);
    t.insert("b".to_string(), 2);
    t.insert("a".to_string(), 3);
    assert_eq!(t.len(), 2);
    assert_eq!(t.get(&"a".to_string()), Some(&3));
}

#[test]
fn a_roster_holds_an_item_once() {
    let mut r: Roster<SwapId> = Roster::new();
    assert!(r.is_empty());
    assert!(r.insert(id(1)));
    assert!(!r.insert(id(1)));
    assert!(r.insert(id(2)));
    assert_eq!(r.len(), 2);
    assert!(r.contains(&id(1)));
    assert_eq!(r.to_vec(), vec![id(1), id(2)]);
    assert!(r.remove(&id(1)));
    assert!(!r.remove(&id(1)));
    assert!(!r.is_empty());
}

#[test]
fn outcomes_are_counted() {
    let mut s = Stats::default();
    s.incr_outcome(&Outcome::Buy);
    s.incr_outcome(&Outcome::Buy);
    s.incr_outcome(&Outcome::Refund);
    s.incr_outcome(&Outcome::Punish);
    assert_eq!((s.success, s.refund, s.punish), (2, 1, 1));
    assert_eq!(s.success_share(), (2, 4));
    s.incr_initiated();
    assert_eq!(s.initialized, 1);
}

#[test]
fn funding_is_counted() {
    let mut s = Stats::default();
    s.incr_awaiting_funding(&Coin::Bitcoin);
    s.incr_awaiting_funding(&Coin::Monero);
    s.incr_awaiting_funding(&Coin::Monero);
    assert_eq!((s.awaiting_funding_btc, s.awaiting_funding_xmr), (1, 2));
    s.incr_funded(&Coin::Bitcoin);
    s.incr_funded(&Coin::Monero);
    assert_eq!((s.awaiting_funding_btc, s.awaiting_funding_xmr), (0, 1));
    assert_eq!((s.funded_btc, s.funded_xmr), (1, 1));
    s.incr_funding_monero_canceled();
    assert_eq!((s.awaiting_funding_xmr, s.funding_canceled_xmr), (0, 1));
}

#[test]
fn time_that_has_passed() {
    let a = Moment { secs: 10, nanos: 500_000_000 };
    let b = Moment { secs: 12, nanos: 250_000_000 };
    assert_eq!(b.since(a), 1_750_000_000);
    assert_eq!(a.since(b), 0);
    assert_eq!(a.since_epoch(), 10);
    assert_eq!(Moment { secs: -1, nanos: 999_999_999 }.since_epoch(), 0);
    let first = Moment { secs: i64::MIN, nanos: 0 };
    let last = Moment { secs: i64::MAX, nanos: 999_999_999 };
    assert_eq!(last.since(first), 18_446_744_073_709_551_615_999_999_999);
    assert_eq!(last.since_epoch(), i64::MAX as u64);
}
