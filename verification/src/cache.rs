//! Cache of the password storage service.
//!
//! It holds a bounded, usage-rated set of records for the `get` request and the sorted
//! names of all stored resources for the `list` request. It is loaded once and must be
//! kept up to date by the service as records are added and deleted.

use crate::rated::{
    bumped, inserted, law_bounded_by_capacity, law_insert_stores_value, law_stored_under_own_key,
    Keyed, RatedSet,
};
use crate::sorted::{insert_name, is_sorted, name_set, remove_name};
use crate::storage::Record;
use crate::text::str_eq;
use vstd::prelude::*;

verus! {

/// A record that is stored and found by its resource name alone.
#[derive(Debug)]
pub struct ResourceOrientedRecord(pub Record);

impl Keyed<String> for ResourceOrientedRecord {
    open spec fn key(&self) -> Seq<char> {
        self.0.resource_name@
    }

    fn has_key(&self, key: &String) -> (found: bool) {
        str_eq(self.0.resource_name.as_str(), key.as_str())
    }

    fn same_key(&self, other: &ResourceOrientedRecord) -> (same: bool) {
        str_eq(self.0.resource_name.as_str(), other.0.resource_name.as_str())
    }
}

/// What the record set holds after loading `records` into an empty set that never fills
/// up: each named resource with the last of its records and rate 1.
pub open spec fn loaded(records: Seq<Record>) -> Map<Seq<char>, (ResourceOrientedRecord, u128)>
    decreases records.len(),
{
    if records.len() == 0 {
        Map::empty()
    } else {
        let last = records.last();
        loaded(records.drop_last()).insert(
            last.resource_name@,
            (ResourceOrientedRecord(last), 1u128),
        )
    }
}

/// The resource names of `records`.
pub open spec fn record_names(records: Seq<Record>) -> Set<Seq<char>>
    decreases records.len(),
{
    if records.len() == 0 {
        Set::empty()
    } else {
        record_names(records.drop_last()).insert(records.last().resource_name@)
    }
}

/// `after` is what caching `record` into a record set with contents `before` and the given
/// capacity leaves: inserted as a record with the same fields.
pub open spec fn caches(
    before: Map<Seq<char>, (ResourceOrientedRecord, u128)>,
    capacity: nat,
    after: Map<Seq<char>, (ResourceOrientedRecord, u128)>,
    record: Record,
) -> bool {
    exists|stored: Record, previous: Option<ResourceOrientedRecord>|
        {
            &&& stored@ == record@
            &&& #[trigger] inserted(
                before,
                capacity,
                after,
                record.resource_name@,
                ResourceOrientedRecord(stored),
                previous,
            )
        }
}

proof fn lemma_loaded_size(records: Seq<Record>)
    ensures
        loaded(records).dom().finite(),
        loaded(records).len() <= records.len(),
    decreases records.len(),
{
    if records.len() > 0 {
        lemma_loaded_size(records.drop_last());
    }
}

/// Cache of records and resource names.
pub struct Cache {
    /// Records for the `get` request.
    records: RatedSet<ResourceOrientedRecord, String>,
    /// Names of all stored resources, sorted and without repetition.
    resources: Vec<String>,
}

impl Cache {
    /// The invariant: the record set and the name list are well formed, and every cached
    /// record names a listed resource.
    pub closed spec fn well_formed(&self) -> bool {
        &&& self.records.well_formed()
        &&& is_sorted(self.resources@)
        &&& forall|name: Seq<char>| #[trigger]
            self.records.contents().contains_key(name) ==> name_set(self.resources@).contains(name)
    }

    /// The maximum number of cached records.
    pub closed spec fn capacity(&self) -> nat {
        self.records.capacity()
    }

    /// The cached records by resource name, with their usage rates.
    pub closed spec fn cached(&self) -> Map<Seq<char>, (ResourceOrientedRecord, u128)> {
        self.records.contents()
    }

    /// The names of all stored resources.
    pub closed spec fn listed(&self) -> Set<Seq<char>> {
        name_set(self.resources@)
    }

    /// A cache that holds at most `size` records, loaded from `records`: the first `size`
    /// records are cached, and the names of all of them are listed.
    pub fn load(size: u32, records: Vec<Record>) -> (cache: Cache)
        ensures
            cache.well_formed(),
            cache.capacity() == size,
            cache.cached() == loaded(
                records@.take(if records@.len() < size {
                    records@.len() as int
                } else {
                    size as int
                }),
            ),
            cache.listed() == record_names(records@),
    {
        let capacity = size as usize;
        let mut set: RatedSet<ResourceOrientedRecord, String> = RatedSet::new(capacity);
        let mut resources: Vec<String> = Vec::new();
        let ghost all = records@;
        let total = records.len();
        let mut rest = records;
        let mut n: usize = 0;
        proof {
            assert(all.take(0) =~= Seq::<Record>::empty());
            assert(name_set(resources@) =~= Set::<Seq<char>>::empty());
        }
        while rest.len() > 0
            invariant
                n <= all.len(),
                all.len() == total,
                rest@ == all.skip(n as int),
                set.well_formed(),
                set.capacity() == capacity,
                capacity == size,
                is_sorted(resources@),
                set.contents() == loaded(all.take(if n < capacity { n as int } else { capacity as int })),
                name_set(resources@) == record_names(all.take(n as int)),
                forall|name: Seq<char>| #[trigger]
                    set.contents().contains_key(name) ==> name_set(resources@).contains(name),
            decreases rest@.len(),
        {
            let record = rest.remove(0);
            proof {
                assert(record == all[n as int]);
                assert(all.take(n + 1).drop_last() =~= all.take(n as int));
                assert(all.take(n + 1).last() == all[n as int]);
                assert(rest@ =~= all.skip(n + 1));
            }
            insert_name(&mut resources, record.resource_name.clone());
            if n < capacity {
                proof {
                    lemma_loaded_size(all.take(n as int));
                }
                set.insert(ResourceOrientedRecord(record));
            }
            n = n + 1;
        }
        proof {
            assert(all.take(n as int) =~= all);
        }
        Cache { records: set, resources }
    }

    /// Cache `record` and list its resource.
    pub fn add(&mut self, record: Record)
        requires
            old(self).well_formed(),
            old(self).capacity() > 0,
        ensures
            final(self).well_formed(),
            final(self).capacity() == old(self).capacity(),
            final(self).listed() == old(self).listed().insert(record.resource_name@),
            caches(old(self).cached(), old(self).capacity(), final(self).cached(), record),
    {
        let ghost before = self.records.contents();
        let ghost r = record;
        insert_name(&mut self.resources, record.resource_name.clone());
        let previous = self.records.insert(ResourceOrientedRecord(record));
        assert(inserted(
            before,
            self.records.capacity(),
            self.records.contents(),
            r.resource_name@,
            ResourceOrientedRecord(r),
            previous,
        ));
    }

    /// Forget the named resource: it is neither cached nor listed any more.
    pub fn invalidate(&mut self, resource_name: &String)
        requires
            old(self).well_formed(),
        ensures
            final(self).well_formed(),
            final(self).capacity() == old(self).capacity(),
            final(self).cached() == old(self).cached().remove(resource_name@),
            final(self).listed() == old(self).listed().remove(resource_name@),
    {
        self.records.remove(resource_name);
        remove_name(&mut self.resources, resource_name.as_str());
    }

    /// The record of the named resource: the cached one, whose usage rate then rises by one,
    /// or else the one that `f` gives, which is then cached and its resource listed. An error
    /// of `f` is handed back and leaves the cache unchanged.
    pub fn get_or_try_insert_with<F, E>(&mut self, resource_name: &String, f: F) -> (result:
        Result<Record, E>) where F: FnOnce() -> Result<Record, E>
        requires
            old(self).well_formed(),
            old(self).capacity() > 0 || forall|out: Result<Record, E>| f.ensures((), out) ==> out is Err,
            f.requires(()),
        ensures
            final(self).well_formed(),
            final(self).capacity() == old(self).capacity(),
            old(self).cached().contains_key(resource_name@) ==> {
                &&& result matches Ok(record) && record@ == old(
                    self,
                ).cached()[resource_name@].0.0@
                &&& final(self).cached() == old(self).cached().insert(
                    resource_name@,
                    (
                        old(self).cached()[resource_name@].0,
                        bumped(old(self).cached()[resource_name@].1),
                    ),
                )
                &&& final(self).listed() == old(self).listed()
            },
            !old(self).cached().contains_key(resource_name@) ==> match result {
                Ok(record) => {
                    &&& f.ensures((), Ok::<Record, E>(record))
                    &&& caches(old(self).cached(), old(self).capacity(), final(self).cached(), record)
                    &&& final(self).listed() == old(self).listed().insert(record.resource_name@)
                },
                Err(error) => {
                    &&& f.ensures((), Err::<Record, E>(error))
                    &&& final(self).cached() == old(self).cached()
                    &&& final(self).listed() == old(self).listed()
                },
            },
    {
        proof {
            law_stored_under_own_key(&self.records);
        }
        let ghost before = self.records.contents();
        match self.records.get(resource_name) {
            Some(found) => {
                return Ok(found.0.duplicate());
            },
            None => {},
        }
        let fetched = f();
        match fetched {
            Ok(record) => {
                let copy = record.duplicate();
                insert_name(&mut self.resources, record.resource_name.clone());
                let previous = self.records.insert(ResourceOrientedRecord(copy));
                assert(inserted(
                    before,
                    self.records.capacity(),
                    self.records.contents(),
                    record.resource_name@,
                    ResourceOrientedRecord(copy),
                    previous,
                ));
                Ok(record)
            },
            Err(error) => Err(error),
        }
    }

    /// The names of all stored resources, sorted.
    pub fn get_all_resources(&self) -> (resources: Vec<String>)
        requires
            self.well_formed(),
        ensures
            is_sorted(resources@),
            name_set(resources@) == self.listed(),
    {
        let mut copy: Vec<String> = Vec::new();
        let mut i: usize = 0;
        while i < self.resources.len()
            invariant
                i <= self.resources@.len(),
                copy@ == self.resources@.take(i as int),
            decreases self.resources@.len() - i,
        {
            copy.push(self.resources[i].clone());
            proof {
                assert(self.resources@.take(i + 1) =~= self.resources@.take(i as int).push(
                    self.resources@[i as int],
                ));
            }
            i = i + 1;
        }
        proof {
            assert(self.resources@.take(i as int) =~= self.resources@);
        }
        copy
    }
}

/// Every cached record is stored under its own resource name and its resource is listed,
/// and no more records are cached than the capacity allows.
pub proof fn law_cached_are_listed(cache: &Cache)
    requires
        cache.well_formed(),
    ensures
        cache.cached().dom().finite(),
        cache.cached().len() <= cache.capacity(),
        forall|name: Seq<char>| #[trigger]
            cache.cached().contains_key(name) ==> cache.cached()[name].0.0.resource_name@ == name
                && cache.listed().contains(name),
{
    law_stored_under_own_key(&cache.records);
    law_bounded_by_capacity(&cache.records);
}

/// A record just cached is found again under its resource name, with the same fields and
/// the lowest usage rate; so a `get` of that name right after `add` answers with it.
pub proof fn law_added_is_found(
    before: Map<Seq<char>, (ResourceOrientedRecord, u128)>,
    capacity: nat,
    after: Map<Seq<char>, (ResourceOrientedRecord, u128)>,
    record: Record,
)
    requires
        before.dom().finite(),
        before.len() <= capacity,
        caches(before, capacity, after, record),
    ensures
        after.contains_key(record.resource_name@),
        after[record.resource_name@].0.0@ == record@,
        after[record.resource_name@].1 == 1,
        after.len() <= capacity,
{
    let (stored, previous) = choose|stored: Record, previous: Option<ResourceOrientedRecord>|
        {
            &&& stored@ == record@
            &&& #[trigger] inserted(
                before,
                capacity,
                after,
                record.resource_name@,
                ResourceOrientedRecord(stored),
                previous,
            )
        };
    law_insert_stores_value(
        before,
        capacity,
        after,
        record.resource_name@,
        ResourceOrientedRecord(stored),
        1u128,
        previous,
    );
}

/// After a resource is invalidated, it is neither cached nor listed, and every other
/// cached record stays as it was.
pub proof fn law_invalidated_is_gone(
    cached: Map<Seq<char>, (ResourceOrientedRecord, u128)>,
    listed: Set<Seq<char>>,
    name: Seq<char>,
    other: Seq<char>,
)
    requires
        other != name,
    ensures
        !cached.remove(name).contains_key(name),
        !listed.remove(name).contains(name),
        cached.remove(name).contains_key(other) == cached.contains_key(other),
        cached.contains_key(other) ==> cached.remove(name)[other] == cached[other],
        listed.remove(name).contains(other) == listed.contains(other),
{
}

/// A call on the cache, as far as the listed names see it.
pub enum CacheCall {
    /// `add` of a record of the named resource.
    Added(Seq<char>),
    /// A `get_or_try_insert_with` that fetched a record of the named resource.
    Fetched(Seq<char>),
    /// `invalidate` of the named resource.
    Invalidated(Seq<char>),
    /// A call that leaves the listed names as they are: `get_all_resources`, a
    /// `get_or_try_insert_with` that found the record cached or whose fetch failed.
    Unchanged,
}

/// The listed names after `call`.
pub open spec fn listed_after_call(listed: Set<Seq<char>>, call: CacheCall) -> Set<Seq<char>> {
    match call {
        CacheCall::Added(name) => listed.insert(name),
        CacheCall::Fetched(name) => listed.insert(name),
        CacheCall::Invalidated(name) => listed.remove(name),
        CacheCall::Unchanged => listed,
    }
}

/// The listed names after `calls`, one after the other, starting from `listed`.
pub open spec fn listed_after(listed: Set<Seq<char>>, calls: Seq<CacheCall>) -> Set<Seq<char>>
    decreases calls.len(),
{
    if calls.len() == 0 {
        listed
    } else {
        listed_after_call(listed_after(listed, calls.drop_last()), calls.last())
    }
}

/// Over any sequence of calls, each changing the listed names as its contract says, the
/// cache lists the names it was loaded with, plus every name added or fetched, minus every
/// name invalidated since, in that order, whatever records the bounded record set evicted
/// meanwhile. `get_all_resources` answers exactly these names, sorted, and changes nothing,
/// so two calls in a row answer the same.
pub proof fn law_listed_names(records: Seq<Record>, caches: Seq<Cache>, calls: Seq<CacheCall>)
    requires
        caches.len() == calls.len() + 1,
        caches[0].listed() == record_names(records),
        forall|i: int|
            0 <= i < calls.len() ==> #[trigger] caches[i + 1].listed() == listed_after_call(
                caches[i].listed(),
                calls[i],
            ),
    ensures
        caches.last().listed() == listed_after(record_names(records), calls),
    decreases calls.len(),
{
    if calls.len() > 0 {
        let n = calls.len() - 1;
        let fewer = caches.take(n + 1);
        assert forall|i: int| 0 <= i < calls.drop_last().len() implies #[trigger] fewer[i + 1].listed()
            == listed_after_call(fewer[i].listed(), calls.drop_last()[i]) by {
            assert(caches[i + 1].listed() == listed_after_call(caches[i].listed(), calls[i]));
        }
        law_listed_names(records, fewer, calls.drop_last());
        assert(caches[n + 1].listed() == listed_after_call(caches[n].listed(), calls[n]));
    }
}

} // verus!
