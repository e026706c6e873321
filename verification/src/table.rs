//! Finite maps and sets that keep their items in a vector.
//!
//! A [`Table`] holds each key once and a [`Roster`] holds each item once. Both are seen from
//! outside through their views, a `Map` and a `Set` over the views of the keys.

use vstd::prelude::*;

verus! {

/// What a key of a [`Table`] or an item of a [`Roster`] can do: be compared.
pub trait Key: View + Sized {
    /// Tells whether two keys are the same key.
    fn same(&self, other: &Self) -> (r: bool)
        ensures
            r == (self@ == other@),
    ;
}

impl Key for String {
    fn same(&self, other: &Self) -> (r: bool) {
        *self == *other
    }
}

/// A key that is its own view.
pub trait PlainKey: Key + Copy + View<V = Self> {
    /// The view of a key is the key.
    proof fn plain(k: Self)
        ensures
            k@ == k,
    ;
}

/// A finite map from `K` to `V`.
pub struct Table<K: Key, V> {
    entries: Vec<(K, V)>,
}

/// No key occurs twice.
pub open spec fn distinct_keys<K: Key, V>(s: Seq<(K, V)>) -> bool {
    forall|i: int, j: int| 0 <= i < j < s.len() ==> (#[trigger] s[i]).0@ != (#[trigger] s[j]).0@
}

/// The position at which a key stands.
pub open spec fn has_key_at<K: Key, V>(s: Seq<(K, V)>, k: K::V, i: int) -> bool {
    0 <= i < s.len() && s[i].0@ == k
}

/// The map that a sequence of entries with distinct keys stands for.
pub open spec fn map_of<K: Key, V>(s: Seq<(K, V)>) -> Map<K::V, V> {
    Map::new(
        |k: K::V| exists|i: int| has_key_at(s, k, i),
        |k: K::V| s[choose|i: int| has_key_at(s, k, i)].1,
    )
}

/// Each entry of a sequence with distinct keys is an entry of the map it stands for.
pub proof fn lemma_entry<K: Key, V>(s: Seq<(K, V)>, i: int)
    requires
        distinct_keys(s),
        0 <= i < s.len(),
    ensures
        map_of(s).contains_key(s[i].0@),
        map_of(s)[s[i].0@] == s[i].1,
{
    let k = s[i].0@;
    assert(has_key_at(s, k, i));
    let j = choose|j: int| has_key_at(s, k, j);
    assert(has_key_at(s, k, j));
    if i < j {
        assert(s[i].0@ != s[j].0@);
    } else if j < i {
        assert(s[j].0@ != s[i].0@);
    }
}

proof fn lemma_push<K: Key, V>(s: Seq<(K, V)>, k: K, v: V)
    requires
        distinct_keys(s),
        !map_of(s).contains_key(k@),
    ensures
        distinct_keys(s.push((k, v))),
        map_of(s.push((k, v))) == map_of(s).insert(k@, v),
{
    let t = s.push((k, v));
    assert forall|i: int, j: int| 0 <= i < j < t.len() implies (#[trigger] t[i]).0@ != (
    #[trigger] t[j]).0@ by {
        if j == s.len() {
            if t[i].0@ == k@ {
                assert(has_key_at(s, k@, i));
            }
        }
    }
    assert forall|i: int| 0 <= i < t.len() implies map_of(s).insert(k@, v).contains_key(
        (#[trigger] t[i]).0@,
    ) && map_of(s).insert(k@, v)[t[i].0@] == t[i].1 by {
        if i < s.len() {
            lemma_entry(s, i);
            assert(t[i].0@ != t[s.len() as int].0@);
        }
    }
    lemma_same_map(t, map_of(s).insert(k@, v), |x: K::V|
        if x == k@ {
            s.len() as int
        } else {
            choose|i: int| has_key_at(s, x, i)
        });
}

/// A sequence of entries stands for a map when each entry is in it and each key has a place.
proof fn lemma_same_map<K: Key, V>(t: Seq<(K, V)>, m: Map<K::V, V>, at: spec_fn(K::V) -> int)
    requires
        distinct_keys(t),
        forall|i: int|
            0 <= i < t.len() ==> m.contains_key((#[trigger] t[i]).0@) && m[t[i].0@] == t[i].1,
        forall|k: K::V| m.contains_key(k) ==> has_key_at(t, k, #[trigger] at(k)),
    ensures
        map_of(t) == m,
{
    assert forall|k: K::V| map_of(t).contains_key(k) <==> m.contains_key(k) by {
        if m.contains_key(k) {
            assert(has_key_at(t, k, at(k)));
        }
        if map_of(t).contains_key(k) {
            let i = choose|i: int| has_key_at(t, k, i);
            assert(m.contains_key(t[i].0@));
        }
    }
    assert forall|k: K::V| m.contains_key(k) implies map_of(t)[k] == m[k] by {
        let i = at(k);
        assert(has_key_at(t, k, i));
        lemma_entry(t, i);
    }
    assert(map_of(t) =~= m);
}

proof fn lemma_update<K: Key, V>(s: Seq<(K, V)>, i: int, k: K, v: V)
    requires
        distinct_keys(s),
        has_key_at(s, k@, i),
    ensures
        distinct_keys(s.update(i, (k, v))),
        map_of(s.update(i, (k, v))) == map_of(s).insert(k@, v),
{
    let t = s.update(i, (k, v));
    let m = map_of(s).insert(k@, v);
    assert forall|a: int, b: int| 0 <= a < b < t.len() implies (#[trigger] t[a]).0@ != (
    #[trigger] t[b]).0@ by {
        assert(s[a].0@ != s[b].0@);
    }
    assert forall|a: int| 0 <= a < t.len() implies m.contains_key((#[trigger] t[a]).0@)
        && m[t[a].0@] == t[a].1 by {
        lemma_entry(s, a);
        if a < i {
            assert(t[a].0@ != t[i].0@);
        } else if i < a {
            assert(t[i].0@ != t[a].0@);
        }
    }
    lemma_same_map(t, m, |x: K::V| choose|a: int| has_key_at(s, x, a));
}

proof fn lemma_remove<K: Key, V>(s: Seq<(K, V)>, i: int)
    requires
        distinct_keys(s),
        0 <= i < s.len(),
    ensures
        distinct_keys(s.remove(i)),
        map_of(s.remove(i)) == map_of(s).remove(s[i].0@),
{
    let t = s.remove(i);
    let m = map_of(s).remove(s[i].0@);
    assert forall|a: int, b: int| 0 <= a < b < t.len() implies (#[trigger] t[a]).0@ != (
    #[trigger] t[b]).0@ by {
        let a1 = if a < i { a } else { a + 1 };
        let b1 = if b < i { b } else { b + 1 };
        assert(s[a1].0@ != s[b1].0@);
    }
    assert forall|a: int| 0 <= a < t.len() implies m.contains_key((#[trigger] t[a]).0@)
        && m[t[a].0@] == t[a].1 by {
        let a1 = if a < i { a } else { a + 1 };
        lemma_entry(s, a1);
        if a1 < i {
            assert(s[a1].0@ != s[i].0@);
        } else {
            assert(s[i].0@ != s[a1].0@);
        }
    }
    let at = |x: K::V| {
        let a = choose|a: int| has_key_at(s, x, a);
        if a < i { a } else { a - 1 }
    };
    assert forall|x: K::V| m.contains_key(x) implies has_key_at(t, x, #[trigger] at(x)) by {
        let a = choose|a: int| has_key_at(s, x, a);
        assert(has_key_at(s, x, a));
    }
    lemma_same_map(t, m, at);
}

/// The map has as many keys as the sequence has entries.
proof fn lemma_len<K: Key, V>(s: Seq<(K, V)>)
    requires
        distinct_keys(s),
    ensures
        map_of(s).dom().finite(),
        map_of(s).dom().len() == s.len(),
    decreases s.len(),
{
    if s.len() == 0 {
        assert(map_of(s).dom() =~= Set::empty());
    } else {
        let i = s.len() - 1;
        lemma_remove(s, i);
        lemma_len(s.remove(i));
        lemma_entry(s, i);
        assert(map_of(s).remove(s[i].0@).dom() =~= map_of(s).dom().remove(s[i].0@));
        assert(map_of(s).dom() =~= map_of(s).dom().remove(s[i].0@).insert(s[i].0@));
    }
}

impl<K: Key, V> View for Table<K, V> {
    type V = Map<K::V, V>;

    open spec fn view(&self) -> Map<K::V, V> {
        map_of(self.seq())
    }
}

impl<K: Key, V> Table<K, V> {
    /// The entries in the order in which they are walked.
    pub closed spec fn seq(&self) -> Seq<(K, V)> {
        self.entries@
    }

    #[verifier::type_invariant]
    spec fn wf(&self) -> bool {
        distinct_keys(self.entries@)
    }

    /// The table without entries.
    pub fn new() -> (t: Self)
        ensures
            t@ == Map::<K::V, V>::empty(),
    {
        let t = Table { entries: Vec::new() };
        assert(t@ =~= Map::<K::V, V>::empty());
        t
    }

    /// The number of entries.
    pub fn len(&self) -> (n: usize)
        ensures
            n == self.seq().len(),
            n == self@.dom().len(),
            self@.dom().finite(),
            distinct_keys(self.seq()),
    {
        proof {
            use_type_invariant(self);
            lemma_len(self.entries@);
        }
        self.entries.len()
    }

    /// The entry at a place.
    pub fn entry(&self, i: usize) -> (e: &(K, V))
        requires
            i < self.seq().len(),
        ensures
            *e == self.seq()[i as int],
            self@.contains_key(e.0@),
            self@[e.0@] == e.1,
    {
        proof {
            use_type_invariant(self);
            lemma_entry(self.entries@, i as int);
        }
        &self.entries[i]
    }

    /// The place of a key.
    fn position(&self, k: &K) -> (p: Option<usize>)
        ensures
            match p {
                Some(i) => has_key_at(self.seq(), k@, i as int),
                None => !self@.contains_key(k@),
            },
    {
        let mut i: usize = 0;
        while i < self.entries.len()
            invariant
                i <= self.entries@.len(),
                forall|j: int| 0 <= j < i ==> (#[trigger] self.entries@[j]).0@ != k@,
            decreases self.entries@.len() - i,
        {
            if self.entries[i].0.same(k) {
                return Some(i);
            }
            i += 1;
        }
        None
    }

    /// Tells whether a key has an entry.
    pub fn contains_key(&self, k: &K) -> (r: bool)
        ensures
            r == self@.contains_key(k@),
    {
        self.position(k).is_some()
    }

    /// The value of a key.
    pub fn get(&self, k: &K) -> (r: Option<&V>)
        ensures
            match r {
                Some(v) => self@.contains_key(k@) && *v == self@[k@],
                None => !self@.contains_key(k@),
            },
    {
        match self.position(k) {
            Some(i) => {
                proof {
                    use_type_invariant(self);
                    lemma_entry(self.entries@, i as int);
                }
                Some(&self.entries[i].1)
            },
            None => None,
        }
    }

    /// Gives a key a value, in place of the one it had.
    pub fn insert(&mut self, k: K, v: V)
        ensures
            final(self)@ == old(self)@.insert(k@, v),
    {
        let p = self.position(&k);
        proof {
            use_type_invariant(&*self);
        }
        let mut entries: Vec<(K, V)> = Vec::new();
        std::mem::swap(&mut entries, &mut self.entries);
        match p {
            Some(i) => {
                proof {
                    lemma_update(entries@, i as int, k, v);
                }
                entries[i] = (k, v);
            },
            None => {
                proof {
                    lemma_push(entries@, k, v);
                }
                entries.push((k, v));
            },
        }
        self.entries = entries;
    }

    /// Takes the entry of a key out.
    pub fn remove(&mut self, k: &K) -> (r: Option<V>)
        ensures
            final(self)@ == old(self)@.remove(k@),
            match r {
                Some(v) => old(self)@.contains_key(k@) && v == old(self)@[k@],
                None => !old(self)@.contains_key(k@) && final(self)@ == old(self)@,
            },
    {
        match self.position(k) {
            Some(i) => {
                proof {
                    use_type_invariant(&*self);
                    lemma_entry(self.entries@, i as int);
                    lemma_remove(self.entries@, i as int);
                }
                let mut entries: Vec<(K, V)> = Vec::new();
                std::mem::swap(&mut entries, &mut self.entries);
                let e = entries.remove(i);
                self.entries = entries;
                Some(e.1)
            },
            None => {
                assert(self@.remove(k@) =~= self@);
                None
            },
        }
    }
}

/// Holds each item of a set once.
pub open spec fn lists<A>(v: Seq<A>, s: Set<A>) -> bool {
    &&& v.no_duplicates()
    &&& forall|i: int| 0 <= i < v.len() ==> s.contains(#[trigger] v[i])
    &&& forall|a: A| #[trigger] s.contains(a) ==> v.contains(a)
}

/// Holds the values of a map, each as often as it occurs there.
pub open spec fn lists_values<A, B>(v: Seq<B>, m: Map<A, B>) -> bool {
    exists|keys: Seq<A>| #[trigger]
        lists(keys, m.dom()) && v == looked_up(keys, m)
}

/// The values that a map has for keys, in order.
pub open spec fn looked_up<A, B>(keys: Seq<A>, m: Map<A, B>) -> Seq<B> {
    Seq::new(keys.len(), |i: int| m[keys[i]])
}

/// The part of a map whose values meet a condition.
pub open spec fn kept<A, B>(m: Map<A, B>, keep: spec_fn(B) -> bool) -> Map<A, B> {
    Map::new(|k: A| m.contains_key(k) && keep(m[k]), |k: A| m[k])
}

/// Values that are looked up under the keys of entries, in order, list the values of a map with
/// the same keys.
pub proof fn lemma_lists_values<K: Key, V, B>(s: Seq<(K, V)>, v: Seq<B>, m: Map<K::V, B>)
    requires
        distinct_keys(s),
        m.dom() == map_of(s).dom(),
        v.len() == s.len(),
        forall|i: int| 0 <= i < s.len() ==> #[trigger] v[i] == m[s[i].0@],
    ensures
        lists_values(v, m),
{
    let keys = Seq::new(s.len(), |i: int| s[i].0@);
    assert forall|i: int, j: int| 0 <= i < keys.len() && 0 <= j < keys.len() && i
        != j implies keys[i] != keys[j] by {
        if i < j {
            assert(s[i].0@ != s[j].0@);
        } else {
            assert(s[j].0@ != s[i].0@);
        }
    }
    assert forall|i: int| 0 <= i < keys.len() implies m.dom().contains(#[trigger] keys[i]) by {
        lemma_entry(s, i);
    }
    assert forall|k: K::V| #[trigger] m.dom().contains(k) implies keys.contains(k) by {
        let i = choose|i: int| has_key_at(s, k, i);
        assert(keys[i] == k);
    }
    assert(lists(keys, m.dom()));
    assert(v =~= looked_up(keys, m));
}

/// The entries whose values meet a condition stand for the part of the map that meets it.
pub proof fn lemma_filter<K: Key, V>(s: Seq<(K, V)>, keep: spec_fn(V) -> bool)
    requires
        distinct_keys(s),
    ensures
        distinct_keys(s.filter(|e: (K, V)| keep(e.1))),
        map_of(s.filter(|e: (K, V)| keep(e.1))) == kept(map_of(s), keep),
    decreases s.len(),
{
    reveal(Seq::filter);
    let f = |e: (K, V)| keep(e.1);
    if s.len() == 0 {
        assert(map_of(s.filter(f)) =~= kept(map_of(s), keep));
    } else {
        let t = s.drop_last();
        let (k, v) = s.last();
        assert(s =~= t.push((k, v)));
        assert(distinct_keys(t)) by {
            assert forall|i: int, j: int| 0 <= i < j < t.len() implies (#[trigger] t[i]).0@ != (
            #[trigger] t[j]).0@ by {
                assert(s[i].0@ != s[j].0@);
            }
        }
        lemma_filter(t, keep);
        assert(!map_of(t).contains_key(k@)) by {
            if map_of(t).contains_key(k@) {
                let i = choose|i: int| has_key_at(t, k@, i);
                assert(s[i].0@ != s[s.len() - 1].0@);
            }
        }
        lemma_push(t, k, v);
        if keep(v) {
            lemma_push(t.filter(f), k, v);
        }
        assert(map_of(s.filter(f)) =~= kept(map_of(s), keep));
    }
}

/// A finite set.
pub struct Roster<K: Key> {
    table: Table<K, ()>,
}

impl<K: Key> View for Roster<K> {
    type V = Set<K::V>;

    open spec fn view(&self) -> Set<K::V> {
        self.inner().dom()
    }
}

impl<K: Key> Roster<K> {
    /// The items as the keys of a map.
    pub closed spec fn inner(&self) -> Map<K::V, ()> {
        self.table@
    }

    /// The set without items.
    pub fn new() -> (r: Self)
        ensures
            r@ == Set::<K::V>::empty(),
    {
        let r = Roster { table: Table::new() };
        assert(r@ =~= Set::<K::V>::empty());
        r
    }

    /// The number of items.
    pub fn len(&self) -> (n: usize)
        ensures
            self@.finite(),
            n == self@.len(),
    {
        self.table.len()
    }

    /// Tells whether there are no items.
    pub fn is_empty(&self) -> (r: bool)
        ensures
            r == (self@ == Set::<K::V>::empty()),
    {
        let n: usize = self.len();
        proof {
            if self@.len() == 0 {
                assert(self@ =~= Set::<K::V>::empty());
            }
        }
        n == 0
    }

    /// Tells whether an item is in the set.
    pub fn contains(&self, k: &K) -> (r: bool)
        ensures
            r == self@.contains(k@),
    {
        self.table.contains_key(k)
    }

    /// Puts an item in. Tells whether it was not there before.
    pub fn insert(&mut self, k: K) -> (r: bool)
        ensures
            final(self)@ == old(self)@.insert(k@),
            r == !old(self)@.contains(k@),
    {
        let fresh = !self.table.contains_key(&k);
        self.table.insert(k, ());
        assert(self@ =~= old(self)@.insert(k@));
        fresh
    }

    /// Takes an item out. Tells whether it was there before.
    pub fn remove(&mut self, k: &K) -> (r: bool)
        ensures
            final(self)@ == old(self)@.remove(k@),
            r == old(self)@.contains(k@),
    {
        let found = self.table.remove(k);
        assert(self@ =~= old(self)@.remove(k@));
        found.is_some()
    }
}

impl<K: PlainKey> Roster<K> {
    /// The items.
    pub fn to_vec(&self) -> (v: Vec<K>)
        ensures
            lists(v@, self@),
    {
        self.table.keys()
    }
}

impl<K: PlainKey, V> Table<K, V> {
    /// The keys.
    pub fn keys(&self) -> (v: Vec<K>)
        ensures
            lists(v@, self@.dom()),
            v@.len() == self.seq().len(),
            forall|i: int| 0 <= i < v@.len() ==> #[trigger] v@[i] == self.seq()[i].0,
    {
        let mut v: Vec<K> = Vec::new();
        let mut i: usize = 0;
        let n: usize = self.len();
        while i < n
            invariant
                n == self.seq().len(),
                i <= n,
                v@.len() == i,
                forall|j: int| 0 <= j < i ==> #[trigger] v@[j] == self.seq()[j].0,
            decreases n - i,
        {
            v.push(self.entry(i).0);
            i += 1;
        }
        proof {
            lemma_keys(self.seq(), v@);
        }
        v
    }
}

/// The keys of the entries, in order, list the domain of the map.
proof fn lemma_keys<K: PlainKey, V>(s: Seq<(K, V)>, v: Seq<K>)
    requires
        distinct_keys(s),
        v.len() == s.len(),
        forall|i: int| 0 <= i < v.len() ==> #[trigger] v[i] == s[i].0,
    ensures
        lists(v, map_of(s).dom()),
{
    assert forall|k: K| #[trigger] k@ == k by {
        K::plain(k);
    }
    assert forall|i: int, j: int| 0 <= i < v.len() && 0 <= j < v.len() && i != j implies v[i]
        != v[j] by {
        if i < j {
            assert(s[i].0@ != s[j].0@);
        } else {
            assert(s[j].0@ != s[i].0@);
        }
    }
    assert forall|i: int| 0 <= i < v.len() implies map_of(s).dom().contains(#[trigger] v[i]) by {
        lemma_entry(s, i);
    }
    assert forall|k: K| #[trigger] map_of(s).dom().contains(k) implies v.contains(k) by {
        let i = choose|i: int| has_key_at(s, k, i);
        assert(v[i] == k);
    }
}

} // verus!
