//! Loops over the tables of the daemon.

use crate::addr::RemoteSocketAddr;
use crate::chain::{BitcoinAddress, Chain, MoneroAddress};
use crate::farcasterd::launch;
use crate::farcasterd::runtime;
use crate::farcasterd::state;
use crate::ident::{OfferId, PublicKey, SwapId};
use crate::offer::{self, PublicOffer, PublicTerms};
use crate::rpc::FundingInfo;
use crate::service::ServiceId;
use crate::table::{self, Roster, Table};
use vstd::prelude::*;
use vstd::string::StringExecFns;

verus! {

/// One of the first items of a list.
pub open spec fn among<A>(v: Seq<A>, n: int, a: A) -> bool {
    exists|i: int| 0 <= i < n && i < v.len() && #[trigger] v[i] == a
}

proof fn lemma_among_next<A>(v: Seq<A>, n: int)
    requires
        0 <= n < v.len(),
    ensures
        forall|a: A| among(v, n + 1, a) <==> (among(v, n, a) || a == v[n]),
{
    assert forall|a: A| among(v, n + 1, a) <==> (among(v, n, a) || a == v[n]) by {
        if among(v, n, a) {
            let i = choose|i: int| 0 <= i < n && i < v.len() && #[trigger] v[i] == a;
            assert(v[i] == a);
        }
        if a == v[n] {
            assert(v[n] == a);
        }
    }
}

proof fn lemma_among_all<A>(v: Seq<A>, s: Set<A>)
    requires
        table::lists(v, s),
    ensures
        forall|a: A| #[trigger] s.contains(a) <==> among(v, v.len() as int, a),
{
    assert forall|a: A| #[trigger] s.contains(a) <==> among(v, v.len() as int, a) by {
        if s.contains(a) {
            assert(v.contains(a));
            let i = v.index_of(a);
            assert(v[i] == a);
        }
        if among(v, v.len() as int, a) {
            let i = choose|i: int| 0 <= i < v.len() && i < v.len() && #[trigger] v[i] == a;
            assert(s.contains(v[i]));
        }
    }
}

/// Tells whether an address is listened at.
pub fn listens_at(t: &Table<OfferId, RemoteSocketAddr>, addr: RemoteSocketAddr) -> (r: Option<
    OfferId,
>)
    ensures
        match r {
            Some(offer) => t@.contains_key(offer) && t@[offer] == addr && t@.values().contains(
                addr,
            ),
            None => !t@.values().contains(addr),
        },
{
    let keys = t.keys();
    let mut i: usize = 0;
    while i < keys.len()
        invariant
            i <= keys@.len(),
            table::lists(keys@, t@.dom()),
            forall|j: int| 0 <= j < i ==> t@[#[trigger] keys@[j]] != addr,
        decreases keys@.len() - i,
    {
        proof {
            assert(t@.dom().contains(keys@[i as int]));
        }
        match t.get(&keys[i]) {
            Some(a) => {
                if *a == addr {
                    return Some(keys[i]);
                }
            },
            None => {},
        }
        i += 1;
    }
    proof {
        if t@.values().contains(addr) {
            let k = choose|k: OfferId| t@.contains_key(k) && t@[k] == addr;
            assert(t@.dom().contains(k));
            assert(keys@.contains(k));
            assert(keys@[keys@.index_of(k)] == k);
        }
    }
    None
}

/// Tells whether an address is listened at, and every offer that is listened for there has a node
/// key.
pub fn surely_bound(
    listens: &Table<OfferId, RemoteSocketAddr>,
    node_ids: &Table<OfferId, PublicKey>,
    addr: RemoteSocketAddr,
) -> (r: bool)
    ensures
        r == (listens@.values().contains(addr) && forall|offer: OfferId| #[trigger]
            listens@.contains_key(offer) && listens@[offer] == addr ==> node_ids@.contains_key(
                offer,
            )),
{
    let keys = listens.keys();
    let mut i: usize = 0;
    while i < keys.len()
        invariant
            i <= keys@.len(),
            table::lists(keys@, listens@.dom()),
            forall|j: int|
                0 <= j < i && listens@[#[trigger] keys@[j]] == addr ==> node_ids@.contains_key(
                    keys@[j],
                ),
        decreases keys@.len() - i,
    {
        let k = keys[i];
        proof {
            assert(listens@.dom().contains(keys@[i as int]));
        }
        match listens.get(&k) {
            Some(a) => {
                if *a == addr && !node_ids.contains_key(&k) {
                    return false;
                }
            },
            None => {},
        }
        i += 1;
    }
    assert forall|offer: OfferId| #[trigger]
        listens@.contains_key(offer) && listens@[offer] == addr implies node_ids@.contains_key(
        offer,
    ) by {
        assert(listens@.dom().contains(offer));
        assert(keys@.contains(offer));
        assert(keys@[keys@.index_of(offer)] == offer);
    }
    listens_at(listens, addr).is_some()
}

/// Releases the offers that a swap consumed, and gives one of them.
pub fn drop_swap(t: &mut Table<OfferId, SwapId>, swap: SwapId) -> (r: Option<OfferId>)
    ensures
        final(t)@ == table::kept(old(t)@, |s: SwapId| s != swap),
        match r {
            Some(offer) => old(t)@.contains_key(offer) && old(t)@[offer] == swap,
            None => forall|offer: OfferId| #[trigger]
                old(t)@.contains_key(offer) ==> old(t)@[offer] != swap,
        },
{
    let keys = t.keys();
    let ghost all = t@;
    let mut found: Option<OfferId> = None;
    let mut i: usize = 0;
    while i < keys.len()
        invariant
            i <= keys@.len(),
            all == old(t)@,
            table::lists(keys@, all.dom()),
            forall|k: OfferId| #[trigger]
                t@.contains_key(k) <==> all.contains_key(k) && !(among(keys@, i as int, k)
                    && all[k] == swap),
            forall|k: OfferId| #[trigger] t@.contains_key(k) ==> t@[k] == all[k],
            match found {
                Some(offer) => all.contains_key(offer) && all[offer] == swap,
                None => forall|k: OfferId|
                    all.contains_key(k) && #[trigger] among(keys@, i as int, k) ==> all[k] != swap,
            },
        decreases keys@.len() - i,
    {
        let k = keys[i];
        proof {
            lemma_among_next(keys@, i as int);
            assert(all.dom().contains(keys@[i as int]));
            if among(keys@, i as int, k) {
                let j = choose|j: int| 0 <= j < i && j < keys@.len() && #[trigger] keys@[j] == k;
                assert(keys@[j] != keys@[i as int]);
            }
            assert(t@.contains_key(k));
        }
        match t.get(&k) {
            Some(s) => {
                if *s == swap {
                    let _ = t.remove(&k);
                    found = Some(k);
                }
            },
            None => {},
        }
        i += 1;
        proof {
            if found is None {
                assert forall|a: OfferId|
                    all.contains_key(a) && #[trigger] among(
                        keys@,
                        i as int,
                        a,
                    ) implies all[a] != swap by {
                    assert(a == k || among(keys@, i - 1, a));
                }
            }
        }
    }
    proof {
        lemma_among_all(keys@, all.dom());
        assert forall|k: OfferId| all.contains_key(k) implies among(keys@, keys@.len() as int, k) by {
            assert(all.dom().contains(k));
        }
        assert(t@ =~= table::kept(all, |s: SwapId| s != swap));
    }
    found
}

/// Takes a swap from the clients of all syncers, and gives the chains whose syncers then have no
/// clients.
pub fn leave_syncers(t: &mut Table<Chain, Roster<SwapId>>, swap: SwapId) -> (idle: Vec<Chain>)
    ensures
        runtime::client_views(final(t)@) == runtime::client_views(old(t)@).map_values(
            |s: Set<SwapId>| s.remove(swap),
        ),
        table::lists(
            idle@,
            table::kept(
                runtime::client_views(final(t)@),
                |s: Set<SwapId>| s == Set::<SwapId>::empty(),
            ).dom(),
        ),
{
    let keys = t.keys();
    let ghost all = t@;
    let mut idle: Vec<Chain> = Vec::new();
    let mut i: usize = 0;
    while i < keys.len()
        invariant
            i <= keys@.len(),
            all == old(t)@,
            table::lists(keys@, all.dom()),
            forall|k: Chain| #[trigger] t@.contains_key(k) <==> all.contains_key(k),
            forall|k: Chain| #[trigger]
                all.contains_key(k) ==> t@[k]@ == (if among(keys@, i as int, k) {
                    all[k]@.remove(swap)
                } else {
                    all[k]@
                }),
            idle@.no_duplicates(),
            forall|k: Chain| #[trigger]
                idle@.contains(k) <==> all.contains_key(k) && among(keys@, i as int, k)
                    && all[k]@.remove(swap) == Set::<SwapId>::empty(),
        decreases keys@.len() - i,
    {
        let k = keys[i];
        proof {
            lemma_among_next(keys@, i as int);
            assert(all.dom().contains(keys@[i as int]));
            assert(all.contains_key(k));
            if among(keys@, i as int, k) {
                let j = choose|j: int| 0 <= j < i && j < keys@.len() && #[trigger] keys@[j] == k;
                assert(keys@[j] != keys@[i as int]);
            }
        }
        let ghost before = t@;
        let ghost listed = idle@;
        match t.remove(&k) {
            Some(xs) => {
                let mut xs = xs;
                let _ = xs.remove(&swap);
                if xs.is_empty() {
                    idle.push(k);
                    proof {
                        assert(!listed.contains(k));
                        assert forall|a: Chain| #[trigger]
                            idle@.contains(a) <==> listed.contains(a) || a == k by {
                            if listed.contains(a) {
                                let j = listed.index_of(a);
                                assert(idle@[j] == a);
                            }
                            if a == k {
                                assert(idle@[idle@.len() - 1] == k);
                            }
                        }
                    }
                }
                t.insert(k, xs);
            },
            None => {},
        }
        i += 1;
    }
    proof {
        lemma_among_all(keys@, all.dom());
        assert forall|k: Chain| all.contains_key(k) implies among(keys@, keys@.len() as int, k) by {
            assert(all.dom().contains(k));
        }
        assert(runtime::client_views(t@) =~= runtime::client_views(all).map_values(
            |s: Set<SwapId>| s.remove(swap),
        ));
        let none = table::kept(
            runtime::client_views(t@),
            |s: Set<SwapId>| s == Set::<SwapId>::empty(),
        ).dom();
        assert forall|j: int| 0 <= j < idle@.len() implies none.contains(#[trigger] idle@[j]) by {
            assert(idle@.contains(idle@[j]));
        }
    }
    idle
}

/// Keeps only syncers that have clients.
pub fn prune(t: &mut Table<Chain, ServiceId>, clients: &Table<Chain, Roster<SwapId>>)
    ensures
        final(t)@ == old(t)@.restrict(clients@.dom()),
{
    let keys = t.keys();
    let ghost all = t@;
    let mut i: usize = 0;
    while i < keys.len()
        invariant
            i <= keys@.len(),
            all == old(t)@,
            table::lists(keys@, all.dom()),
            forall|k: Chain| #[trigger]
                t@.contains_key(k) <==> all.contains_key(k) && (among(keys@, i as int, k)
                    ==> clients@.contains_key(k)),
            forall|k: Chain| #[trigger] t@.contains_key(k) ==> t@[k] == all[k],
        decreases keys@.len() - i,
    {
        let k = keys[i];
        proof {
            lemma_among_next(keys@, i as int);
        }
        if !clients.contains_key(&k) {
            let _ = t.remove(&k);
        }
        i += 1;
    }
    proof {
        lemma_among_all(keys@, all.dom());
        assert forall|k: Chain| all.contains_key(k) implies among(keys@, keys@.len() as int, k) by {
            assert(all.dom().contains(k));
        }
        assert(t@ =~= all.restrict(clients@.dom()));
    }
}

/// The addresses that are listened at, once for each offer.
pub fn addresses(t: &Table<OfferId, RemoteSocketAddr>) -> (v: Vec<RemoteSocketAddr>)
    ensures
        table::lists_values(v@, t@),
{
    let n: usize = t.len();
    let mut v: Vec<RemoteSocketAddr> = Vec::new();
    let mut i: usize = 0;
    while i < n
        invariant
            n == t.seq().len(),
            i <= n,
            v@.len() == i,
            forall|j: int| 0 <= j < i ==> #[trigger] v@[j] == t@[t.seq()[j].0@],
        decreases n - i,
    {
        v.push(t.entry(i).1);
        i += 1;
    }
    proof {
        table::lemma_lists_values(t.seq(), v@, t@);
    }
    v
}

/// The URLs of the addresses of the first entries.
spec fn url_list(s: Seq<(OfferId, RemoteSocketAddr)>, n: int) -> Seq<Seq<char>> {
    Seq::new(n as nat, |i: int| s[i].1.url())
}

/// The addresses that are listened at, once for each offer, as URLs.
pub fn urls(t: &Table<OfferId, RemoteSocketAddr>) -> (v: Vec<String>)
    ensures
        table::lists_values(
            launch::words(v@),
            t@.map_values(|a: RemoteSocketAddr| a.url()),
        ),
{
    let n: usize = t.len();
    let mut v: Vec<String> = Vec::new();
    let mut i: usize = 0;
    assert(launch::words(v@) =~= url_list(t.seq(), 0));
    while i < n
        invariant
            n == t.seq().len(),
            i <= n,
            v@.len() == i,
            launch::words(v@) == url_list(t.seq(), i as int),
        decreases n - i,
    {
        let ghost before = v@;
        v.push(t.entry(i).1.to_url_string());
        i += 1;
        assert(launch::words(v@) =~= launch::words(before).push(v@[i - 1]@));
        assert(url_list(t.seq(), i as int) =~= url_list(t.seq(), i - 1).push(
            t.seq()[i - 1].1.url(),
        ));
    }
    proof {
        let m = t@.map_values(|a: RemoteSocketAddr| a.url());
        assert(m.dom() =~= t@.dom());
        assert forall|j: int| 0 <= j < n implies #[trigger] launch::words(v@)[j]
            == m[t.seq()[j].0@] by {
            table::lemma_entry(t.seq(), j);
        }
        table::lemma_lists_values(t.seq(), launch::words(v@), m);
    }
    v
}

/// The node keys, each once.
pub fn node_keys(t: &Table<OfferId, PublicKey>) -> (v: Vec<PublicKey>)
    ensures
        table::lists(v@, t@.values()),
{
    let keys = t.keys();
    let mut set: Roster<PublicKey> = Roster::new();
    let mut i: usize = 0;
    while i < keys.len()
        invariant
            i <= keys@.len(),
            table::lists(keys@, t@.dom()),
            forall|p: PublicKey| #[trigger]
                set@.contains(p) <==> exists|k: OfferId| #[trigger]
                    among(keys@, i as int, k) && t@[k] == p,
        decreases keys@.len() - i,
    {
        let k = keys[i];
        let ghost before = set@;
        proof {
            lemma_among_next(keys@, i as int);
            assert(t@.dom().contains(keys@[i as int]));
            assert(t@.contains_key(k));
        }
        match t.get(&k) {
            Some(p) => {
                let _ = set.insert(*p);
            },
            None => {},
        }
        i += 1;
        proof {
            assert forall|p: PublicKey| #[trigger]
                set@.contains(p) <==> exists|a: OfferId| #[trigger]
                    among(keys@, i as int, a) && t@[a] == p by {
                if set@.contains(p) {
                    if before.contains(p) {
                        let a = choose|a: OfferId| #[trigger]
                            among(keys@, i - 1, a) && t@[a] == p;
                        assert(among(keys@, i as int, a));
                    } else {
                        assert(among(keys@, i as int, k) && t@[k] == p);
                    }
                }
                if exists|a: OfferId| #[trigger] among(keys@, i as int, a) && t@[a] == p {
                    let a = choose|a: OfferId| #[trigger] among(keys@, i as int, a) && t@[a] == p;
                    if a != k {
                        assert(among(keys@, i - 1, a));
                    }
                }
            }
        }
    }
    proof {
        lemma_among_all(keys@, t@.dom());
        assert forall|p: PublicKey| set@.contains(p) <==> t@.values().contains(p) by {
            if set@.contains(p) {
                let k = choose|k: OfferId| #[trigger]
                    among(keys@, keys@.len() as int, k) && t@[k] == p;
                assert(t@.dom().contains(k));
            }
            if t@.values().contains(p) {
                let k = choose|k: OfferId| t@.contains_key(k) && t@[k] == p;
                assert(t@.dom().contains(k));
                assert(among(keys@, keys@.len() as int, k));
            }
        }
        assert(set@ =~= t@.values());
    }
    set.to_vec()
}

/// The public offers.
pub fn all_offers(t: &Table<String, PublicOffer>) -> (v: Vec<PublicOffer>)
    ensures
        table::lists_values(offer::offer_views(v@), runtime::public_views(t@)),
{
    let n: usize = t.len();
    let mut v: Vec<PublicOffer> = Vec::new();
    let mut i: usize = 0;
    while i < n
        invariant
            n == t.seq().len(),
            i <= n,
            v@.len() == i,
            forall|j: int| 0 <= j < i ==> (#[trigger] v@[j])@ == t.seq()[j].1@,
        decreases n - i,
    {
        v.push(t.entry(i).1.clone());
        i += 1;
    }
    proof {
        let m = runtime::public_views(t@);
        assert(m.dom() =~= t@.dom());
        assert forall|j: int| 0 <= j < n implies #[trigger] offer::offer_views(v@)[j]
            == m[t.seq()[j].0@] by {
            table::lemma_entry(t.seq(), j);
            assert(v@[j]@ == t.seq()[j].1@);
        }
        table::lemma_lists_values(t.seq(), offer::offer_views(v@), m);
    }
    v
}

/// The public offers that no swap has consumed.
pub fn open_offers(t: &Table<String, PublicOffer>, consumed: &Table<OfferId, SwapId>) -> (v: Vec<
    PublicOffer,
>)
    ensures
        table::lists_values(
            offer::offer_views(v@),
            table::kept(
                runtime::public_views(t@),
                |o: PublicTerms| !consumed@.contains_key(o.uuid()),
            ),
        ),
{
    let ghost keep = |o: PublicOffer| !consumed@.contains_key(o@.uuid());
    let ghost pick = |e: (String, PublicOffer)| keep(e.1);
    let n: usize = t.len();
    let mut v: Vec<PublicOffer> = Vec::new();
    let mut i: usize = 0;
    proof {
        reveal(Seq::filter);
    }
    while i < n
        invariant
            n == t.seq().len(),
            i <= n,
            keep == (|o: PublicOffer| !consumed@.contains_key(o@.uuid())),
            pick == (|e: (String, PublicOffer)| keep(e.1)),
            v@.len() == t.seq().take(i as int).filter(pick).len(),
            forall|j: int|
                0 <= j < v@.len() ==> (#[trigger] v@[j])@ == t.seq().take(i as int).filter(
                    pick,
                )[j].1@,
        decreases n - i,
    {
        let e = t.entry(i);
        proof {
            reveal(Seq::filter);
            assert(t.seq().take(i + 1).drop_last() =~= t.seq().take(i as int));
            assert(t.seq().take(i + 1).last() == *e);
        }
        if !consumed.contains_key(&e.1.id()) {
            v.push(e.1.clone());
        }
        i += 1;
    }
    proof {
        assert(t.seq().take(n as int) =~= t.seq());
        let f = t.seq().filter(pick);
        let part = table::kept(
            runtime::public_views(t@),
            |o: PublicTerms| !consumed@.contains_key(o.uuid()),
        );
        table::lemma_filter(t.seq(), keep);
        assert(part.dom() =~= table::kept(t@, keep).dom());
        assert forall|j: int| 0 <= j < f.len() implies #[trigger] offer::offer_views(v@)[j]
            == part[f[j].0@] by {
            table::lemma_entry(f, j);
            assert(v@[j]@ == f[j].1@);
        }
        table::lemma_lists_values(f, offer::offer_views(v@), part);
    }
    v
}

/// The swaps that wait for Bitcoin which was not sent.
pub fn bitcoin_infos(t: &Table<SwapId, (BitcoinAddress, u64, bool)>) -> (v: Vec<FundingInfo>)
    ensures
        table::lists_values(state::not_sent(v@), state::unsent(state::bitcoin_fundings(t@))),
{
    let ghost keep = |e: (BitcoinAddress, u64, bool)| !e.2;
    let ghost pick = |e: (SwapId, (BitcoinAddress, u64, bool))| keep(e.1);
    let n: usize = t.len();
    let mut v: Vec<FundingInfo> = Vec::new();
    let mut i: usize = 0;
    proof {
        reveal(Seq::filter);
    }
    while i < n
        invariant
            n == t.seq().len(),
            i <= n,
            keep == (|e: (BitcoinAddress, u64, bool)| !e.2),
            pick == (|e: (SwapId, (BitcoinAddress, u64, bool))| keep(e.1)),
            v@.len() == t.seq().take(i as int).filter(pick).len(),
            forall|j: int|
                0 <= j < v@.len() ==> {
                    let (k, (address, amount, _)) = t.seq().take(i as int).filter(pick)[j];
                    #[trigger] v@[j] == (FundingInfo::Bitcoin { swap_id: k, address, amount })
                },
        decreases n - i,
    {
        let e = t.entry(i);
        proof {
            reveal(Seq::filter);
            assert(t.seq().take(i + 1).drop_last() =~= t.seq().take(i as int));
            assert(t.seq().take(i + 1).last() == *e);
        }
        if !e.1.2 {
            v.push(
                FundingInfo::Bitcoin { swap_id: e.0, address: e.1.0.clone(), amount: e.1.1 },
            );
        }
        i += 1;
    }
    proof {
        assert(t.seq().take(n as int) =~= t.seq());
        let f = t.seq().filter(pick);
        let part = state::unsent(state::bitcoin_fundings(t@));
        let infos = state::not_sent(v@);
        table::lemma_filter(t.seq(), keep);
        assert(part.dom() =~= table::kept(t@, keep).dom());
        assert forall|j: int| 0 <= j < f.len() implies #[trigger] infos[j] == part[f[j].0@] by {
            table::lemma_entry(f, j);
            assert(v@[j] == part[f[j].0@].0);
        }
        table::lemma_lists_values(f, infos, part);
    }
    v
}

/// The swaps that wait for Monero which was not sent.
pub fn monero_infos(t: &Table<SwapId, (MoneroAddress, u64, bool)>) -> (v: Vec<FundingInfo>)
    ensures
        table::lists_values(state::not_sent(v@), state::unsent(state::monero_fundings(t@))),
{
    let ghost keep = |e: (MoneroAddress, u64, bool)| !e.2;
    let ghost pick = |e: (SwapId, (MoneroAddress, u64, bool))| keep(e.1);
    let n: usize = t.len();
    let mut v: Vec<FundingInfo> = Vec::new();
    let mut i: usize = 0;
    proof {
        reveal(Seq::filter);
    }
    while i < n
        invariant
            n == t.seq().len(),
            i <= n,
            keep == (|e: (MoneroAddress, u64, bool)| !e.2),
            pick == (|e: (SwapId, (MoneroAddress, u64, bool))| keep(e.1)),
            v@.len() == t.seq().take(i as int).filter(pick).len(),
            forall|j: int|
                0 <= j < v@.len() ==> {
                    let (k, (address, amount, _)) = t.seq().take(i as int).filter(pick)[j];
                    #[trigger] v@[j] == (FundingInfo::Monero { swap_id: k, address, amount })
                },
        decreases n - i,
    {
        let e = t.entry(i);
        proof {
            reveal(Seq::filter);
            assert(t.seq().take(i + 1).drop_last() =~= t.seq().take(i as int));
            assert(t.seq().take(i + 1).last() == *e);
        }
        if !e.1.2 {
            v.push(
                FundingInfo::Monero { swap_id: e.0, address: e.1.0.clone(), amount: e.1.1 },
            );
        }
        i += 1;
    }
    proof {
        assert(t.seq().take(n as int) =~= t.seq());
        let f = t.seq().filter(pick);
        let part = state::unsent(state::monero_fundings(t@));
        let infos = state::not_sent(v@);
        table::lemma_filter(t.seq(), keep);
        assert(part.dom() =~= table::kept(t@, keep).dom());
        assert forall|j: int| 0 <= j < f.len() implies #[trigger] infos[j] == part[f[j].0@] by {
            table::lemma_entry(f, j);
            assert(v@[j] == part[f[j].0@].0);
        }
        table::lemma_lists_values(f, infos, part);
    }
    v
}

/// The lines as one text, of which the last ends without a newline if there are `total`.
pub fn joined(lines: &Vec<String>, total: usize) -> (text: String)
    ensures
        text@ == state::in_lines(launch::words(lines@), total as nat),
{
    let mut text = String::from_str("");
    let mut i: usize = 0;
    proof {
        reveal_strlit("");
        assert(text@ =~= state::in_lines(launch::words(lines@).take(0), total as nat));
    }
    while i < lines.len()
        invariant
            i <= lines@.len(),
            text@ == state::in_lines(launch::words(lines@).take(i as int), total as nat),
        decreases lines@.len() - i,
    {
        proof {
            let next = launch::words(lines@).take(i + 1);
            assert(next.drop_last() =~= launch::words(lines@).take(i as int));
            assert(next.last() == lines@[i as int]@);
        }
        text.append(lines[i].as_str());
        if total > 0 && i < total - 1 {
            text.append("\n");
        }
        i += 1;
    }
    assert(launch::words(lines@).take(i as int) =~= launch::words(lines@));
    text
}

} // verus!
