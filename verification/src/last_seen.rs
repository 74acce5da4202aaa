//! A bounded set of the last seen records of the database service: it keeps at most
//! `capacity` values and, once full, drops the least recently seen one to make room.
//!
//! Every value carries the stamp of the last time it was seen, inserted or read. Stamps
//! come from a counter that rises by one on each insertion or read (saturating at
//! `u128::MAX`), so a larger stamp means a more recent use.
//!
//! `K` is the key by which values are looked up and `V` the stored value type.

use crate::rated::{
    bumped, inserted_with_rate, law_bounded_by_capacity, law_rates_at_least_one,
    law_stored_under_own_key, stored, Keyed, RatedSet,
};
use vstd::prelude::*;

verus! {

/// Set to store only a specified number of last seen records.
pub struct LastSeenSet<K, V> {
    /// Values with the stamps of their last use.
    inner: RatedSet<V, K>,
    /// The stamp of the latest use.
    clock: u128,
}

impl<K: View, V: Keyed<K>> LastSeenSet<K, V> {
    /// The internal invariant: no stored stamp is later than the latest use.
    pub closed spec fn well_formed(&self) -> bool {
        &&& self.inner.well_formed()
        &&& forall|k: K::V| #[trigger]
            self.inner.contents().contains_key(k) ==> self.inner.contents()[k].1 <= self.clock
    }

    /// Maximum number of values the set holds.
    pub closed spec fn capacity(&self) -> nat {
        self.inner.capacity()
    }

    /// Contents: each key with its value and the stamp of its last use.
    pub closed spec fn contents(&self) -> Map<K::V, (V, u128)> {
        self.inner.contents()
    }

    /// The stamp of the latest use.
    pub closed spec fn clock(&self) -> u128 {
        self.clock
    }

    /// Create new instance of [`LastSeenSet`] holding at most `capacity` values.
    pub fn new(capacity: usize) -> (set: Self)
        ensures
            set.well_formed(),
            set.capacity() == capacity,
            set.contents() == Map::<K::V, (V, u128)>::empty(),
            set.clock() == 0,
    {
        LastSeenSet { inner: RatedSet::new(capacity), clock: 0 }
    }

    /// Insert `value` into the set, stamped as just seen. Returns the value previously
    /// stored under the same key, which it replaces in place, if it was present. A value with
    /// a new key makes room, when the set is full, by dropping the least recently seen value.
    pub fn insert(&mut self, value: V) -> (previous: Option<V>)
        requires
            old(self).well_formed(),
            old(self).capacity() > 0,
        ensures
            final(self).well_formed(),
            final(self).capacity() == old(self).capacity(),
            final(self).clock() == bumped(old(self).clock()),
            inserted_with_rate(
                old(self).contents(),
                old(self).capacity(),
                final(self).contents(),
                value.key(),
                value,
                bumped(old(self).clock()),
                previous,
            ),
    {
        let ghost before = self.inner.contents();
        let ghost k = value.key();
        let ghost v = value;
        let stamp = match self.clock.checked_add(1) {
            Some(c) => c,
            None => self.clock,
        };
        self.clock = stamp;
        let previous = self.inner.insert_rated(value, stamp);
        proof {
            let after = self.inner.contents();
            assert forall|x: K::V| #[trigger] after.contains_key(x) implies after[x].1
                <= stamp by {
                if x != k {
                    if !before.contains_key(k) && before.len() >= self.inner.capacity() {
                        let evicted = choose|evicted: K::V|
                            {
                                &&& crate::rated::is_least_rated(before, evicted)
                                &&& after == before.remove(evicted).insert(k, (v, stamp))
                            };
                        assert(before.contains_key(x));
                    } else {
                        assert(before.contains_key(x));
                    }
                }
            }
        }
        previous
    }

    /// Remove value with `key` from the set. Returns removed value if it was present.
    pub fn remove(&mut self, key: &K) -> (removed: Option<V>)
        requires
            old(self).well_formed(),
        ensures
            final(self).well_formed(),
            final(self).capacity() == old(self).capacity(),
            final(self).clock() == old(self).clock(),
            final(self).contents() == old(self).contents().remove(key@),
            removed == stored(old(self).contents(), key@),
    {
        self.inner.remove(key)
    }

    /// Get value with `key` from the set if it's present, stamping it as just seen.
    pub fn get(&mut self, key: &K) -> (found: Option<&V>)
        requires
            old(self).well_formed(),
        ensures
            final(self).well_formed(),
            final(self).capacity() == old(self).capacity(),
            final(self).clock() == bumped(old(self).clock()),
            old(self).contents().contains_key(key@) ==> found == Some(&old(self).contents()[key@].0),
            !old(self).contents().contains_key(key@) ==> found is None,
            old(self).contents().contains_key(key@) ==> final(self).contents() == old(
                self,
            ).contents().insert(key@, (old(self).contents()[key@].0, bumped(old(self).clock()))),
            !old(self).contents().contains_key(key@) ==> final(self).contents() == old(
                self,
            ).contents(),
    {
        let stamp = match self.clock.checked_add(1) {
            Some(c) => c,
            None => self.clock,
        };
        self.clock = stamp;
        self.inner.get_with_rate(key, stamp)
    }
}

/// The set never holds more values than its capacity, and every stored stamp is at least 1
/// and no later than the latest use.
pub proof fn law_last_seen_bounded<K: View, V: Keyed<K>>(set: &LastSeenSet<K, V>)
    requires
        set.well_formed(),
    ensures
        set.contents().dom().finite(),
        set.contents().len() <= set.capacity(),
        forall|k: K::V| #[trigger] set.contents().contains_key(k) ==> 1 <= set.contents()[k].1
            <= set.clock(),
{
    law_bounded_by_capacity(&set.inner);
    law_stored_under_own_key(&set.inner);
    law_rates_at_least_one(&set.inner);
}

/// Until the stamps run out, the value just inserted or read carries a stamp later than
/// every other stored value: it is the most recently seen, and the last one a full set would
/// drop.
pub proof fn law_last_seen_is_newest<K: View, V: Keyed<K>>(set: &LastSeenSet<K, V>)
    requires
        set.well_formed(),
        set.clock() < u128::MAX,
    ensures
        forall|k: K::V| #[trigger] set.contents().contains_key(k) ==> set.contents()[k].1 < bumped(
            set.clock(),
        ),
{
}

} // verus!
