//! A small map kept in a vector, for keys that are compared by their view.

use vstd::prelude::*;

verus! {

/// A key of a `VecMap`: two keys are the same key when their views are equal.
pub trait Key: View + Sized {
    fn same(&self, other: &Self) -> (r: bool)
        ensures
            r == (self@ == other@),
    ;
}

impl Key for String {
    fn same(&self, other: &Self) -> (r: bool) {
        *self == *other
    }
}

/// A key made of two strings.
#[derive(Debug, Clone, PartialEq, Eq)]
pub struct Pair(pub String, pub String);

/// The mathematical form of a `Pair`.
pub type PairKey = (Seq<char>, Seq<char>);

impl View for Pair {
    type V = PairKey;

    open spec fn view(&self) -> PairKey {
        (self.0@, self.1@)
    }
}

impl Key for Pair {
    fn same(&self, other: &Self) -> (r: bool) {
        self.0 == other.0 && self.1 == other.1
    }
}

impl Pair {
    /// The key of copies of the two strings.
    pub fn of(first: &String, second: &String) -> (r: Pair)
        ensures
            r@ == (first@, second@),
    {
        Pair(first.clone(), second.clone())
    }
}

#[derive(Debug)]
struct Slot<K, V> {
    key: K,
    value: V,
}

/// A finite map in which no key occurs twice.
#[derive(Debug)]
pub struct VecMap<K: View, V> {
    slots: Vec<Slot<K, V>>,
}

spec fn distinct<K: View, V>(s: Seq<Slot<K, V>>) -> bool {
    forall|i: int, j: int| 0 <= i < j < s.len() ==> s[i].key@ != s[j].key@
}

spec fn map_of<K: View, V: View>(s: Seq<Slot<K, V>>) -> Map<K::V, V::V>
    decreases s.len(),
{
    if s.len() == 0 {
        Map::empty()
    } else {
        map_of(s.drop_last()).insert(s.last().key@, s.last().value@)
    }
}

proof fn lemma_distinct_prefix<K: View, V>(s: Seq<Slot<K, V>>)
    requires
        distinct(s),
        s.len() > 0,
    ensures
        distinct(s.drop_last()),
{
    let t = s.drop_last();
    assert forall|i: int, j: int| 0 <= i < j < t.len() implies t[i].key@ != t[j].key@ by {
        assert(t[i] == s[i]);
        assert(t[j] == s[j]);
    }
}

proof fn lemma_map_of_dom<K: View, V: View>(s: Seq<Slot<K, V>>, k: K::V)
    ensures
        map_of(s).contains_key(k) <==> exists|i: int| 0 <= i < s.len() && s[i].key@ == k,
    decreases s.len(),
{
    if s.len() > 0 {
        let t = s.drop_last();
        lemma_map_of_dom(t, k);
        if map_of(s).contains_key(k) {
            if s.last().key@ == k {
            } else {
                let i = choose|i: int| 0 <= i < t.len() && t[i].key@ == k;
                assert(s[i].key@ == k);
            }
        }
        if exists|i: int| 0 <= i < s.len() && s[i].key@ == k {
            let i = choose|i: int| 0 <= i < s.len() && s[i].key@ == k;
            if i < s.len() - 1 {
                assert(t[i].key@ == k);
            }
        }
    }
}

proof fn lemma_map_of_get<K: View, V: View>(s: Seq<Slot<K, V>>, i: int)
    requires
        distinct(s),
        0 <= i < s.len(),
    ensures
        map_of(s).contains_key(s[i].key@),
        map_of(s)[s[i].key@] == s[i].value@,
    decreases s.len(),
{
    if i < s.len() - 1 {
        let t = s.drop_last();
        assert(t[i] == s[i]);
        lemma_distinct_prefix(s);
        lemma_map_of_get(t, i);
    }
}

proof fn lemma_map_of_update<K: View, V: View>(s: Seq<Slot<K, V>>, i: int, e: Slot<K, V>)
    requires
        distinct(s),
        0 <= i < s.len(),
        e.key@ == s[i].key@,
    ensures
        distinct(s.update(i, e)),
        map_of(s.update(i, e)) == map_of(s).insert(s[i].key@, e.value@),
    decreases s.len(),
{
    let u = s.update(i, e);
    assert forall|a: int, b: int| 0 <= a < b < u.len() implies u[a].key@ != u[b].key@ by {
        assert(u[a].key@ == s[a].key@);
        assert(u[b].key@ == s[b].key@);
    }
    let t = s.drop_last();
    lemma_distinct_prefix(s);
    if i == s.len() - 1 {
        assert(u.drop_last() =~= t);
        assert(map_of(u) =~= map_of(s).insert(s[i].key@, e.value@));
    } else {
        assert(u.drop_last() =~= t.update(i, e));
        assert(t[i] == s[i]);
        lemma_map_of_update(t, i, e);
        assert(s.last().key@ != s[i].key@);
        assert(map_of(u) =~= map_of(s).insert(s[i].key@, e.value@));
    }
}

spec fn pairs_of<K: View, V: View>(s: Seq<Slot<K, V>>) -> Seq<(K::V, V::V)> {
    Seq::new(s.len(), |i: int| (s[i].key@, s[i].value@))
}

/// The entries after a value was stored under a key: the first entry of
/// the key has the new value, or, where the key is new, the entry comes
/// last.
pub open spec fn place<A, B>(entries: Seq<(A, B)>, key: A, value: B) -> Seq<(A, B)>
    decreases entries.len(),
{
    if entries.len() == 0 {
        seq![(key, value)]
    } else if entries[0].0 == key {
        entries.update(0, (key, value))
    } else {
        seq![entries[0]].add(place(entries.skip(1), key, value))
    }
}

proof fn lemma_place_found<A, B>(entries: Seq<(A, B)>, i: int, key: A, value: B)
    requires
        0 <= i < entries.len(),
        entries[i].0 == key,
        forall|j: int| 0 <= j < i ==> entries[j].0 != key,
    ensures
        place(entries, key, value) == entries.update(i, (key, value)),
    decreases entries.len(),
{
    if i > 0 {
        let rest = entries.skip(1);
        assert forall|j: int| 0 <= j < i - 1 implies rest[j].0 != key by {
            assert(rest[j] == entries[j + 1]);
        }
        lemma_place_found(rest, i - 1, key, value);
        assert(seq![entries[0]].add(rest.update(i - 1, (key, value))) =~= entries.update(
            i,
            (key, value),
        ));
    }
}

proof fn lemma_place_missing<A, B>(entries: Seq<(A, B)>, key: A, value: B)
    requires
        forall|j: int| 0 <= j < entries.len() ==> entries[j].0 != key,
    ensures
        place(entries, key, value) == entries.push((key, value)),
    decreases entries.len(),
{
    if entries.len() > 0 {
        let rest = entries.skip(1);
        assert forall|j: int| 0 <= j < rest.len() implies rest[j].0 != key by {
            assert(rest[j] == entries[j + 1]);
        }
        lemma_place_missing(rest, key, value);
        assert(seq![entries[0]].add(rest.push((key, value))) =~= entries.push((key, value)));
    } else {
        assert(seq![(key, value)] =~= entries.push((key, value)));
    }
}

/// Whether a sequence of keys with their values lists a map: no key occurs
/// twice, each value is the one the map has under its key, and every key of
/// the map occurs.
pub open spec fn lists<A, B>(entries: Seq<(A, B)>, map: Map<A, B>) -> bool {
    &&& forall|i: int, j: int|
        0 <= i < j < entries.len() ==> (#[trigger] entries[i]).0 != (#[trigger] entries[j]).0
    &&& forall|i: int|
        0 <= i < entries.len() ==> map.contains_key((#[trigger] entries[i]).0) && map[entries[i].0]
            == entries[i].1
    &&& forall|k: A| #[trigger]
        map.contains_key(k) ==> exists|i: int| 0 <= i < entries.len() && (#[trigger] entries[i]).0
            == k
}

proof fn lemma_pairs_list<K: View, V: View>(s: Seq<Slot<K, V>>)
    requires
        distinct(s),
    ensures
        lists(pairs_of(s), map_of(s)),
{
    let entries = pairs_of(s);
    let map = map_of(s);
    assert forall|i: int| 0 <= i < entries.len() implies map.contains_key(
        (#[trigger] entries[i]).0,
    ) && map[entries[i].0] == entries[i].1 by {
        lemma_map_of_get(s, i);
    }
    assert forall|k: K::V| #[trigger] map.contains_key(k) implies exists|i: int|
        0 <= i < entries.len() && (#[trigger] entries[i]).0 == k by {
        lemma_map_of_dom(s, k);
        let i = choose|i: int| 0 <= i < s.len() && s[i].key@ == k;
        assert(entries[i].0 == k);
    }
}

impl<K: View, V: View> View for VecMap<K, V> {
    type V = Map<K::V, V::V>;

    closed spec fn view(&self) -> Map<K::V, V::V> {
        map_of(self.slots@)
    }
}

impl<K: View, V> VecMap<K, V> {
    #[verifier::type_invariant]
    spec fn keys_distinct(self) -> bool {
        distinct(self.slots@)
    }
}

impl<K: View, V: View> VecMap<K, V> {
    /// The keys with their values, in the order in which the keys came in.
    pub closed spec fn entries(&self) -> Seq<(K::V, V::V)> {
        pairs_of(self.slots@)
    }
}

impl<K: Key, V: View> VecMap<K, V> {
    /// A map without entries.
    pub fn new() -> (r: Self)
        ensures
            r@ == Map::<K::V, V::V>::empty(),
            r.entries() == Seq::<(K::V, V::V)>::empty(),
    {
        let r = VecMap { slots: Vec::new() };
        assert(r.entries() =~= Seq::<(K::V, V::V)>::empty());
        r
    }

    /// The number of entries.
    pub fn len(&self) -> (r: usize)
        ensures
            r == self.entries().len(),
            lists(self.entries(), self@),
    {
        proof {
            use_type_invariant(self);
            lemma_pairs_list(self.slots@);
        }
        self.slots.len()
    }

    /// The key and the value of the entry at a position.
    pub fn entry(&self, i: usize) -> (r: (&K, &V))
        requires
            i < self.entries().len(),
        ensures
            (r.0@, r.1@) == self.entries()[i as int],
    {
        (&self.slots[i].key, &self.slots[i].value)
    }

    fn position(&self, key: &K) -> (r: Option<usize>)
        ensures
            match r {
                Some(i) => {
                    &&& i < self.slots@.len()
                    &&& self.slots@[i as int].key@ == key@
                    &&& forall|j: int| 0 <= j < i ==> self.slots@[j].key@ != key@
                },
                None => {
                    &&& !self@.contains_key(key@)
                    &&& forall|j: int| 0 <= j < self.slots@.len() ==> self.slots@[j].key@ != key@
                },
            },
    {
        let mut i: usize = 0;
        while i < self.slots.len()
            invariant
                i <= self.slots@.len(),
                forall|j: int| 0 <= j < i ==> self.slots@[j].key@ != key@,
            decreases self.slots@.len() - i,
        {
            if self.slots[i].key.same(key) {
                return Some(i);
            }
            i += 1;
        }
        proof {
            lemma_map_of_dom(self.slots@, key@);
        }
        None
    }

    /// The value stored under a key, if there is one.
    pub fn get(&self, key: &K) -> (r: Option<&V>)
        ensures
            match r {
                Some(v) => self@.contains_key(key@) && self@[key@] == v@,
                None => !self@.contains_key(key@),
            },
    {
        match self.position(key) {
            Some(i) => {
                proof {
                    use_type_invariant(self);
                    lemma_map_of_get(self.slots@, i as int);
                }
                Some(&self.slots[i].value)
            },
            None => None,
        }
    }

    /// Stores a value under a key, in place of the one that was there. A
    /// key that is new comes last; one that was there keeps its place.
    pub fn insert(&mut self, key: K, value: V)
        ensures
            final(self)@ == old(self)@.insert(key@, value@),
            final(self).entries() == place(old(self).entries(), key@, value@),
    {
        proof {
            use_type_invariant(&*self);
        }
        let ghost before = self.slots@;
        let found = self.position(&key);
        let slot = Slot { key, value };
        let mut slots: Vec<Slot<K, V>> = Vec::new();
        std::mem::swap(&mut slots, &mut self.slots);
        match found {
            Some(i) => {
                proof {
                    lemma_map_of_update(before, i as int, slot);
                    lemma_place_found(pairs_of(before), i as int, slot.key@, slot.value@);
                    assert(pairs_of(before.update(i as int, slot)) =~= pairs_of(before).update(
                        i as int,
                        (slot.key@, slot.value@),
                    ));
                }
                slots.set(i, slot);
            },
            None => {
                proof {
                    lemma_map_of_dom(before, slot.key@);
                    let after = before.push(slot);
                    assert(after.drop_last() =~= before);
                    assert forall|a: int, b: int| 0 <= a < b < after.len() implies after[a].key@
                        != after[b].key@ by {
                        assert(after[a] == before[a]);
                        if b < before.len() {
                            assert(after[b] == before[b]);
                        }
                    }
                    lemma_place_missing(pairs_of(before), slot.key@, slot.value@);
                    assert(pairs_of(after) =~= pairs_of(before).push((slot.key@, slot.value@)));
                }
                slots.push(slot);
            },
        }
        self.slots = slots;
    }
}

} // verus!
