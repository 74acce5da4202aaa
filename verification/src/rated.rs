//! A bounded set that holds at most `capacity` values and, once full, makes
//! room for a new value by dropping the least used one.
//!
//! Every value carries a usage rate. A value starts with rate 1 and each
//! successful [`RatedSet::get`] raises it by one (saturating at `u128::MAX`).

use std::marker::PhantomData;
use vstd::prelude::*;

verus! {

/// A value that is stored and found again under a lookup key of type `Q`.
pub trait Keyed<Q: View> {
    /// The key under which the value is stored.
    spec fn key(&self) -> Q::V;

    /// Whether the value is stored under `key`.
    fn has_key(&self, key: &Q) -> (found: bool)
        ensures
            found == (self.key() == key@),
    ;

    /// Whether `self` and `other` are stored under the same key.
    fn same_key(&self, other: &Self) -> (same: bool)
        ensures
            same == (self.key() == other.key()),
    ;
}

impl Keyed<u32> for u32 {
    open spec fn key(&self) -> u32 {
        *self
    }

    fn has_key(&self, key: &u32) -> (found: bool) {
        *self == *key
    }

    fn same_key(&self, other: &u32) -> (same: bool) {
        *self == *other
    }
}

/// The rate after one more use: one higher, unless it is already the largest `u128`.
pub open spec fn bumped(rate: u128) -> u128 {
    if rate == u128::MAX {
        rate
    } else {
        (rate + 1) as u128
    }
}

/// `key` is present in `m` and no other entry has a smaller rate.
pub open spec fn is_least_rated<K, V>(m: Map<K, (V, u128)>, key: K) -> bool {
    &&& m.contains_key(key)
    &&& forall|other: K| #[trigger] m.contains_key(other) ==> m[key].1 <= m[other].1
}

/// The value stored under `key` in `m`, if any.
pub open spec fn stored<K, V>(m: Map<K, (V, u128)>, key: K) -> Option<V> {
    if m.contains_key(key) {
        Some(m[key].0)
    } else {
        None
    }
}

/// `after` and `previous` are what inserting `value` under `key` with rate `rate` into a set
/// with contents `before` and the given `capacity` leaves and returns. A value already stored
/// under `key` is replaced in place and handed back, and nothing else changes. A new key is
/// stored as it is while the set is not full; a full set first drops some value with the
/// smallest rate.
pub open spec fn inserted_with_rate<K, V>(
    before: Map<K, (V, u128)>,
    capacity: nat,
    after: Map<K, (V, u128)>,
    key: K,
    value: V,
    rate: u128,
    previous: Option<V>,
) -> bool {
    if before.contains_key(key) {
        &&& after == before.insert(key, (value, rate))
        &&& previous == Some(before[key].0)
    } else if before.len() < capacity {
        &&& after == before.insert(key, (value, rate))
        &&& previous is None
    } else {
        &&& previous is None
        &&& exists|evicted: K|
            {
                &&& is_least_rated(before, evicted)
                &&& after == before.remove(evicted).insert(key, (value, rate))
            }
    }
}

/// Inserting `value` under `key` with rate 1; see [`inserted_with_rate`].
pub open spec fn inserted<K, V>(
    before: Map<K, (V, u128)>,
    capacity: nat,
    after: Map<K, (V, u128)>,
    key: K,
    value: V,
    previous: Option<V>,
) -> bool {
    inserted_with_rate(before, capacity, after, key, value, 1u128, previous)
}

/// Set that stores at most `capacity` values, replacing the least used one on insertion.
///
/// `V` is the stored value type and `Q` the key by which values are looked up.
pub struct RatedSet<V, Q = V> {
    /// Stored values; no two of them have the same key.
    values: Vec<V>,
    /// Usage rate of the value at the same position.
    rates: Vec<u128>,
    /// Maximum number of values to store.
    capacity: usize,
    /// The lookup key type.
    lookup: PhantomData<Q>,
}

impl<V: Keyed<Q>, Q: View> RatedSet<V, Q> {
    /// Keys of the stored values, in storage order.
    pub closed spec fn keys(&self) -> Seq<Q::V> {
        self.values@.map_values(|v: V| v.key())
    }

    /// The internal invariant: rates line up with values, keys are unique, the capacity
    /// is respected and every rate is at least 1.
    pub closed spec fn well_formed(&self) -> bool {
        &&& self.values@.len() == self.rates@.len()
        &&& self.values@.len() <= self.capacity
        &&& self.keys().no_duplicates()
        &&& forall|i: int| 0 <= i < self.rates@.len() ==> #[trigger] self.rates@[i] >= 1
    }

    /// Maximum number of values the set holds.
    pub closed spec fn capacity(&self) -> nat {
        self.capacity as nat
    }

    /// Contents: each key with its value and usage rate.
    pub closed spec fn contents(&self) -> Map<Q::V, (V, u128)> {
        Map::new(
            |k: Q::V| self.keys().contains(k),
            |k: Q::V|
                {
                    let i = self.keys().index_of(k);
                    (self.values@[i], self.rates@[i])
                },
        )
    }

    /// Connects the representation with [`Self::contents`].
    proof fn lemma_contents(&self)
        requires
            self.well_formed(),
        ensures
            forall|i: int|
                0 <= i < self.values@.len() ==> #[trigger] self.contents().contains_key(
                    self.keys()[i],
                ) && self.contents()[self.keys()[i]] == (self.values@[i], self.rates@[i]),
            forall|k: Q::V| #[trigger]
                self.contents().contains_key(k) <==> self.keys().contains(k),
            self.contents().dom() == self.keys().to_set(),
            self.contents().len() == self.values@.len(),
    {
        let keys = self.keys();
        assert forall|i: int| 0 <= i < self.values@.len() implies #[trigger] self.contents().contains_key(
            keys[i],
        ) && self.contents()[keys[i]] == (self.values@[i], self.rates@[i]) by {
            assert(keys.contains(keys[i]));
            let j = keys.index_of(keys[i]);
            assert(0 <= j < keys.len() && keys[j] == keys[i]);
        }
        assert(self.contents().dom() =~= keys.to_set());
        keys.unique_seq_to_set();
    }

    /// Create new instance of [`RatedSet`] holding at most `capacity` values.
    pub fn new(capacity: usize) -> (set: Self)
        ensures
            set.well_formed(),
            set.capacity() == capacity,
            set.contents() == Map::<Q::V, (V, u128)>::empty(),
    {
        let set = RatedSet { values: Vec::new(), rates: Vec::new(), capacity, lookup: PhantomData };
        assert(set.contents() =~= Map::<Q::V, (V, u128)>::empty());
        set
    }

    /// Position of the value stored under `key`, if any.
    fn find(&self, key: &Q) -> (found: Option<usize>)
        requires
            self.well_formed(),
        ensures
            match found {
                Some(i) => i < self.values@.len() && self.keys()[i as int] == key@,
                None => !self.keys().contains(key@),
            },
    {
        let mut i: usize = 0;
        while i < self.values.len()
            invariant
                self.well_formed(),
                i <= self.values@.len(),
                forall|j: int| 0 <= j < i ==> self.keys()[j] != key@,
            decreases self.values@.len() - i,
        {
            if self.values[i].has_key(key) {
                return Some(i);
            }
            i = i + 1;
        }
        None
    }

    /// Position of a value with the smallest rate.
    fn least_rated(&self) -> (least: usize)
        requires
            self.well_formed(),
            self.values@.len() > 0,
        ensures
            least < self.values@.len(),
            forall|j: int| 0 <= j < self.rates@.len() ==> self.rates@[least as int] <= self.rates@[j],
    {
        let mut least: usize = 0;
        let mut i: usize = 1;
        while i < self.rates.len()
            invariant
                self.well_formed(),
                self.values@.len() > 0,
                least < self.rates@.len(),
                1 <= i <= self.rates@.len(),
                forall|j: int| 0 <= j < i ==> self.rates@[least as int] <= self.rates@[j],
            decreases self.rates@.len() - i,
        {
            if self.rates[i] < self.rates[least] {
                least = i;
            }
            i = i + 1;
        }
        least
    }

    /// Take out the value at position `i` together with its rate.
    fn take_at(&mut self, i: usize) -> (taken: (V, u128))
        requires
            old(self).well_formed(),
            i < old(self).values@.len(),
        ensures
            final(self).well_formed(),
            final(self).capacity() == old(self).capacity(),
            taken == old(self).contents()[old(self).keys()[i as int]],
            final(self).contents() == old(self).contents().remove(old(self).keys()[i as int]),
            final(self).values@.len() == old(self).values@.len() - 1,
    {
        proof {
            old(self).lemma_contents();
        }
        let ghost before = *self;
        let ghost k = before.keys()[i as int];
        let value = self.values.swap_remove(i);
        let rate = self.rates.swap_remove(i);
        let ghost last = before.values@.len() - 1;
        assert(self.keys() =~= before.keys().update(i as int, before.keys()[last]).drop_last());
        assert forall|a: int, b: int|
            0 <= a < self.keys().len() && 0 <= b < self.keys().len() && a != b implies self.keys()[a]
            != self.keys()[b] by {
            let oa = if a == i { last } else { a };
            let ob = if b == i { last } else { b };
            assert(before.keys()[oa] != before.keys()[ob]);
        }
        proof {
            self.lemma_contents();
        }
        assert forall|x: Q::V| #[trigger] self.keys().contains(x) <==> (before.keys().contains(x) && x
            != k) by {
            if self.keys().contains(x) {
                let j = self.keys().index_of(x);
                let oj = if j == i { last } else { j };
                assert(before.keys()[oj] == x);
                assert(oj != i);
            }
            if before.keys().contains(x) && x != k {
                let oj = before.keys().index_of(x);
                let j = if oj == last { i as int } else { oj };
                assert(self.keys()[j] == x);
            }
        }
        assert forall|x: Q::V| #[trigger] self.contents().contains_key(x) implies self.contents()[x]
            == before.contents()[x] by {
            let j = self.keys().index_of(x);
            let oj = if j == i { last } else { j };
            assert(before.keys()[oj] == x);
        }
        assert(self.contents() =~= before.contents().remove(k));
        (value, rate)
    }

    /// Append `value` with rate `rate`; its key is not present yet.
    fn push_rated(&mut self, value: V, rate: u128)
        requires
            old(self).well_formed(),
            old(self).values@.len() < old(self).capacity(),
            !old(self).contents().contains_key(value.key()),
            rate >= 1,
        ensures
            final(self).well_formed(),
            final(self).capacity() == old(self).capacity(),
            final(self).contents() == old(self).contents().insert(value.key(), (value, rate)),
    {
        proof {
            old(self).lemma_contents();
        }
        let ghost before = *self;
        let ghost k = value.key();
        let ghost v = value;
        self.values.push(value);
        self.rates.push(rate);
        assert(self.keys() =~= before.keys().push(k));
        assert forall|a: int, b: int|
            0 <= a < self.keys().len() && 0 <= b < self.keys().len() && a != b implies self.keys()[a]
            != self.keys()[b] by {
            if a < before.keys().len() && b < before.keys().len() {
                assert(before.keys()[a] != before.keys()[b]);
            } else if a < before.keys().len() {
                assert(before.keys().contains(before.keys()[a]));
            } else {
                assert(before.keys().contains(before.keys()[b]));
            }
        }
        proof {
            self.lemma_contents();
        }
        assert forall|x: Q::V| #[trigger] self.keys().contains(x) <==> (before.keys().contains(x) || x
            == k) by {
            if self.keys().contains(x) {
                let j = self.keys().index_of(x);
                if j < before.keys().len() {
                    assert(before.keys()[j] == x);
                }
            }
            if before.keys().contains(x) {
                let j = before.keys().index_of(x);
                assert(self.keys()[j] == x);
            }
            if x == k {
                assert(self.keys()[before.keys().len() as int] == x);
            }
        }
        assert forall|x: Q::V| #[trigger] self.contents().contains_key(x) implies self.contents()[x]
            == before.contents().insert(k, (v, rate))[x] by {
            let j = self.keys().index_of(x);
            if j < before.keys().len() {
                assert(before.keys()[j] == x);
                assert(x != k);
            }
        }
        assert(self.contents() =~= before.contents().insert(k, (v, rate)));
    }

    /// Insert `value` into the set with rate 1. Returns the value previously stored under the
    /// same key, if it was present; that value is replaced in place.
    ///
    /// A value with a new key makes room, when the set is full, by dropping a value with the
    /// smallest rate.
    pub fn insert(&mut self, value: V) -> (previous: Option<V>)
        requires
            old(self).well_formed(),
            old(self).capacity() > 0,
        ensures
            final(self).well_formed(),
            final(self).capacity() == old(self).capacity(),
            inserted(
                old(self).contents(),
                old(self).capacity(),
                final(self).contents(),
                value.key(),
                value,
                previous,
            ),
    {
        self.insert_rated(value, 1)
    }

    /// Insert `value` into the set with the given rate, as [`Self::insert`] does with rate 1.
    pub fn insert_rated(&mut self, value: V, rate: u128) -> (previous: Option<V>)
        requires
            old(self).well_formed(),
            old(self).capacity() > 0,
            rate >= 1,
        ensures
            final(self).well_formed(),
            final(self).capacity() == old(self).capacity(),
            inserted_with_rate(
                old(self).contents(),
                old(self).capacity(),
                final(self).contents(),
                value.key(),
                value,
                rate,
                previous,
            ),
    {
        proof {
            old(self).lemma_contents();
        }
        let ghost before = *self;
        let ghost k = value.key();
        let ghost v = value;
        match self.find_value(&value) {
            Some(i) => {
                let (old_value, _) = self.take_at(i);
                self.push_rated(value, rate);
                proof {
                    assert(before.contents().remove(k).insert(k, (v, rate)) =~= before.contents().insert(
                        k,
                        (v, rate),
                    ));
                }
                Some(old_value)
            },
            None => {
                if self.values.len() == self.capacity {
                    let least = self.least_rated();
                    let ghost evicted = before.keys()[least as int];
                    proof {
                        assert forall|other: Q::V| #[trigger]
                            before.contents().contains_key(other) implies before.contents()[evicted].1
                            <= before.contents()[other].1 by {
                            let j = before.keys().index_of(other);
                            assert(before.keys()[j] == other);
                        }
                    }
                    self.take_at(least);
                    self.push_rated(value, rate);
                    proof {
                        assert(is_least_rated(before.contents(), evicted));
                    }
                } else {
                    self.push_rated(value, rate);
                }
                None
            },
        }
    }

    /// Remove the value stored under `key`. Returns the removed value if it was present.
    pub fn remove(&mut self, key: &Q) -> (removed: Option<V>)
        requires
            old(self).well_formed(),
        ensures
            final(self).well_formed(),
            final(self).capacity() == old(self).capacity(),
            final(self).contents() == old(self).contents().remove(key@),
            removed == stored(old(self).contents(), key@),
    {
        proof {
            old(self).lemma_contents();
        }
        match self.find(key) {
            Some(i) => {
                let (value, _) = self.take_at(i);
                Some(value)
            },
            None => {
                assert(self.contents().remove(key@) =~= self.contents());
                None
            },
        }
    }

    /// Get the value stored under `key`, if present, and raise its usage rate by one.
    pub fn get(&mut self, key: &Q) -> (found: Option<&V>)
        requires
            old(self).well_formed(),
        ensures
            final(self).well_formed(),
            final(self).capacity() == old(self).capacity(),
            old(self).contents().contains_key(key@) ==> found == Some(&old(self).contents()[key@].0),
            !old(self).contents().contains_key(key@) ==> found is None,
            old(self).contents().contains_key(key@) ==> final(self).contents() == old(
                self,
            ).contents().insert(
                key@,
                (old(self).contents()[key@].0, bumped(old(self).contents()[key@].1)),
            ),
            !old(self).contents().contains_key(key@) ==> final(self).contents() == old(
                self,
            ).contents(),
    {
        proof {
            old(self).lemma_contents();
        }
        match self.find(key) {
            Some(i) => {
                let rate = self.rates[i];
                let new_rate = match rate.checked_add(1) {
                    Some(r) => r,
                    None => rate,
                };
                self.get_with_rate(key, new_rate)
            },
            None => None,
        }
    }

    /// Get the value stored under `key`, if present, and set its rate to `rate`.
    pub fn get_with_rate(&mut self, key: &Q, rate: u128) -> (found: Option<&V>)
        requires
            old(self).well_formed(),
            rate >= 1,
        ensures
            final(self).well_formed(),
            final(self).capacity() == old(self).capacity(),
            old(self).contents().contains_key(key@) ==> found == Some(&old(self).contents()[key@].0),
            !old(self).contents().contains_key(key@) ==> found is None,
            old(self).contents().contains_key(key@) ==> final(self).contents() == old(
                self,
            ).contents().insert(key@, (old(self).contents()[key@].0, rate)),
            !old(self).contents().contains_key(key@) ==> final(self).contents() == old(
                self,
            ).contents(),
    {
        proof {
            old(self).lemma_contents();
        }
        match self.find(key) {
            Some(i) => {
                let ghost before = *self;
                self.rates.set(i, rate);
                proof {
                    assert(self.keys() =~= before.keys());
                    self.lemma_contents();
                    assert forall|x: Q::V| #[trigger] self.contents().contains_key(x) implies self.contents()[x]
                        == before.contents().insert(key@, (before.contents()[key@].0, rate))[x] by {
                        let j = self.keys().index_of(x);
                        assert(before.keys()[j] == x);
                    }
                    assert(self.contents() =~= before.contents().insert(
                        key@,
                        (before.contents()[key@].0, rate),
                    ));
                }
                Some(&self.values[i])
            },
            None => None,
        }
    }

    /// Position of the value stored under the key of `value`, if any.
    fn find_value(&self, value: &V) -> (found: Option<usize>)
        requires
            self.well_formed(),
        ensures
            match found {
                Some(i) => i < self.values@.len() && self.keys()[i as int] == value.key(),
                None => !self.keys().contains(value.key()),
            },
    {
        let mut i: usize = 0;
        while i < self.values.len()
            invariant
                self.well_formed(),
                i <= self.values@.len(),
                forall|j: int| 0 <= j < i ==> self.keys()[j] != value.key(),
            decreases self.values@.len() - i,
        {
            if self.values[i].same_key(value) {
                return Some(i);
            }
            i = i + 1;
        }
        None
    }
}

/// The number of stored values never exceeds the capacity.
pub proof fn law_bounded_by_capacity<V: Keyed<Q>, Q: View>(set: &RatedSet<V, Q>)
    requires
        set.well_formed(),
    ensures
        set.contents().len() <= set.capacity(),
{
    set.lemma_contents();
}

/// Every stored value has a usage rate of at least 1.
pub proof fn law_rates_at_least_one<V: Keyed<Q>, Q: View>(set: &RatedSet<V, Q>)
    requires
        set.well_formed(),
    ensures
        forall|k: Q::V| #[trigger] set.contents().contains_key(k) ==> set.contents()[k].1 >= 1,
{
    set.lemma_contents();
    assert forall|k: Q::V| #[trigger] set.contents().contains_key(k) implies set.contents()[k].1
        >= 1 by {
        let i = set.keys().index_of(k);
        assert(set.keys()[i] == k);
        assert(set.rates@[i] >= 1);
    }
}

/// The set holds finitely many entries, and each value is stored under its own key.
pub proof fn law_stored_under_own_key<V: Keyed<Q>, Q: View>(set: &RatedSet<V, Q>)
    requires
        set.well_formed(),
    ensures
        set.contents().dom().finite(),
        forall|k: Q::V| #[trigger] set.contents().contains_key(k) ==> set.contents()[k].0.key() == k,
{
    set.lemma_contents();
    assert forall|k: Q::V| #[trigger] set.contents().contains_key(k) implies set.contents()[k].0.key()
        == k by {
        let i = set.keys().index_of(k);
        assert(set.keys()[i] == k);
    }
}

/// Inserting into a set that respects its capacity leaves a set that still respects it,
/// and the inserted value is then stored under its key with the given rate.
pub proof fn law_insert_stores_value<K, V>(
    before: Map<K, (V, u128)>,
    capacity: nat,
    after: Map<K, (V, u128)>,
    key: K,
    value: V,
    rate: u128,
    previous: Option<V>,
)
    requires
        before.dom().finite(),
        before.len() <= capacity,
        inserted_with_rate(before, capacity, after, key, value, rate, previous),
    ensures
        after.contains_key(key),
        after[key] == (value, rate),
        stored(after, key) == Some(value),
        after.dom().finite(),
        after.len() <= capacity,
{
    if before.contains_key(key) {
        assert(after.dom() =~= before.dom());
    } else if before.len() < capacity {
        assert(after.dom() =~= before.dom().insert(key));
    } else {
        let evicted = choose|evicted: K|
            {
                &&& is_least_rated(before, evicted)
                &&& after == before.remove(evicted).insert(key, (value, rate))
            };
        let rest = before.remove(evicted);
        assert(rest.dom() =~= before.dom().remove(evicted));
        assert(after.dom() =~= rest.dom().insert(key));
    }
}

/// Inserting a value under a key that is already stored replaces that value in place: the
/// old value is handed back, no other key is dropped and every other value stays as it was.
pub proof fn law_reinsert_replaces_in_place<K, V>(
    before: Map<K, (V, u128)>,
    capacity: nat,
    after: Map<K, (V, u128)>,
    key: K,
    value: V,
    rate: u128,
    previous: Option<V>,
)
    requires
        before.contains_key(key),
        inserted_with_rate(before, capacity, after, key, value, rate, previous),
    ensures
        previous == Some(before[key].0),
        after.dom() == before.dom(),
        after[key] == (value, rate),
        forall|other: K| other != key && #[trigger] before.contains_key(other) ==> after[other]
            == before[other],
{
    assert(after.dom() =~= before.dom());
}

/// Inserting into a set that is not full evicts nothing: every value stays, the inserted
/// value is stored under its key, and the value it replaced under that key, if any, is
/// handed back.
pub proof fn law_insert_below_capacity<K, V>(
    before: Map<K, (V, u128)>,
    capacity: nat,
    after: Map<K, (V, u128)>,
    key: K,
    value: V,
    rate: u128,
    previous: Option<V>,
)
    requires
        before.len() < capacity,
        inserted_with_rate(before, capacity, after, key, value, rate, previous),
    ensures
        after == before.insert(key, (value, rate)),
        previous == stored(before, key),
        forall|other: K| #[trigger] before.contains_key(other) ==> after.contains_key(other),
{
}

/// Values under keys other than the inserted one are kept unchanged, except that when the
/// key is new and the set full, the one dropped value had the smallest rate.
pub proof fn law_insert_keeps_others<K, V>(
    before: Map<K, (V, u128)>,
    capacity: nat,
    after: Map<K, (V, u128)>,
    key: K,
    value: V,
    rate: u128,
    previous: Option<V>,
    other: K,
)
    requires
        inserted_with_rate(before, capacity, after, key, value, rate, previous),
        other != key,
        before.contains_key(other),
    ensures
        after.contains_key(other) ==> after[other] == before[other],
        !after.contains_key(other) ==> !before.contains_key(key) && before.len() >= capacity
            && is_least_rated(before, other),
{
}

/// After removing a key nothing is stored under it, and every other key keeps its entry.
pub proof fn law_remove_forgets<K, V>(before: Map<K, (V, u128)>, key: K, other: K)
    requires
        other != key,
    ensures
        stored(before.remove(key), key) is None,
        before.remove(key).contains_key(other) == before.contains_key(other),
        before.contains_key(other) ==> before.remove(key)[other] == before[other],
{
}

} // verus!
