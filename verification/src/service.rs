//! The password storage service: its requests, answered from the cache where it can and
//! otherwise from the database.
//!
//! The database itself is reached through the functions each request is given: they perform
//! the query and report its outcome, and the service decides the answer and keeps the cache
//! up to date.

use crate::cache::{caches, Cache};
use crate::grpc;
use crate::storage::{
    error_of_database, list_of_resources, record_of_wire, wire_of_record, DatabaseFailure, Error,
    Record,
};
use vstd::prelude::*;

verus! {

/// `wire` carries the fields of `record`.
pub open spec fn carries(wire: grpc::Record, record: Record) -> bool {
    &&& wire.resource matches Some(resource) && resource.name@ == record.resource_name@
    &&& wire.encrypted_payload@ == record.encrypted_payload@
    &&& wire.salt@ == record.salt@
}

/// The password storage service.
pub struct PasswordStorage {
    /// Cache of the stored records and resource names.
    cache: Cache,
}

impl PasswordStorage {
    /// The invariant: the cache is well formed.
    pub closed spec fn well_formed(&self) -> bool {
        self.cache.well_formed()
    }

    /// The service's cache.
    pub closed spec fn cache(&self) -> Cache {
        self.cache
    }

    /// A service whose cache holds at most `cache_size` records, loaded from `records`, the
    /// first records of the database.
    pub fn new(cache_size: u32, records: Vec<Record>) -> (service: PasswordStorage)
        ensures
            service.well_formed(),
            service.cache().capacity() == cache_size,
            service.cache().listed() == crate::cache::record_names(records@),
            service.cache().cached() == crate::cache::loaded(
                records@.take(if records@.len() < cache_size {
                    records@.len() as int
                } else {
                    cache_size as int
                }),
            ),
    {
        PasswordStorage { cache: Cache::load(cache_size, records) }
    }

    /// Store the record of a request: a record naming no resource is refused; otherwise
    /// `insert` stores it in the database, and on success it is cached too.
    pub fn add<F>(&mut self, request: grpc::Record, insert: F) -> (result: Result<(), Error>) where
        F: FnOnce(&Record) -> Result<(), DatabaseFailure>,

        requires
            old(self).well_formed(),
            old(self).cache().capacity() > 0 || forall|record: &Record, outcome: Result<(), DatabaseFailure>|
                insert.ensures((record,), outcome) ==> outcome is Err,
            forall|record: &Record| insert.requires((record,)),
        ensures
            final(self).well_formed(),
            final(self).cache().capacity() == old(self).cache().capacity(),
            match record_of_wire(request) {
                Err(missing) => {
                    &&& result == Err::<(), Error>(Error::InvalidRecord(missing))
                    &&& final(self).cache() == old(self).cache()
                },
                Ok(record) => match result {
                    Ok(()) => {
                        &&& exists|outcome: Result<(), DatabaseFailure>|
                            insert.ensures((&record,), outcome) && outcome is Ok
                        &&& final(self).cache().listed() == old(self).cache().listed().insert(
                            record.resource_name@,
                        )
                        &&& caches(
                            old(self).cache().cached(),
                            old(self).cache().capacity(),
                            final(self).cache().cached(),
                            record,
                        )
                    },
                    Err(error) => {
                        &&& exists|failure: DatabaseFailure|
                            #![trigger error_of_database(failure, record.resource_name)]
                            insert.ensures((&record,), Err::<(), DatabaseFailure>(failure))
                                && error == error_of_database(failure, record.resource_name)
                        &&& final(self).cache() == old(self).cache()
                    },
                },
            },
    {
        let record = match Record::try_from_wire(request) {
            Ok(record) => record,
            Err(missing) => {
                return Err(Error::InvalidRecord(missing));
            },
        };
        let outcome = insert(&record);
        match outcome {
            Ok(()) => {
                self.cache.add(record);
                Ok(())
            },
            Err(failure) => {
                let error = Error::from_database(failure, record.resource_name);
                Err(error)
            },
        }
    }

    /// Delete the named resource: `delete` removes its rows from the database and tells how
    /// many there were, at most one; when there was one, the resource leaves the cache.
    pub fn delete<F>(&mut self, resource_name: String, delete: F) -> (result: Result<(), Error>) where
        F: FnOnce(&String) -> Result<usize, DatabaseFailure>,

        requires
            old(self).well_formed(),
            delete.requires((&resource_name,)),
            forall|rows: usize|
                delete.ensures((&resource_name,), Ok::<usize, DatabaseFailure>(rows)) ==> rows <= 1,
        ensures
            final(self).well_formed(),
            final(self).cache().capacity() == old(self).cache().capacity(),
            match result {
                Ok(()) => {
                    &&& delete.ensures((&resource_name,), Ok::<usize, DatabaseFailure>(1))
                    &&& final(self).cache().cached() == old(self).cache().cached().remove(
                        resource_name@,
                    )
                    &&& final(self).cache().listed() == old(self).cache().listed().remove(
                        resource_name@,
                    )
                },
                Err(error) => {
                    &&& final(self).cache() == old(self).cache()
                    &&& (error == Error::NotFound(resource_name) && delete.ensures(
                        (&resource_name,),
                        Ok::<usize, DatabaseFailure>(0),
                    )) || exists|failure: DatabaseFailure|
                        #![trigger error_of_database(failure, resource_name)]
                        delete.ensures((&resource_name,), Err::<usize, DatabaseFailure>(failure))
                            && error == error_of_database(failure, resource_name)
                },
            },
    {
        match delete(&resource_name) {
            Ok(rows) => {
                if rows == 0 {
                    Err(Error::NotFound(resource_name))
                } else {
                    self.cache.invalidate(&resource_name);
                    Ok(())
                }
            },
            Err(failure) => Err(Error::from_database(failure, resource_name)),
        }
    }

    /// The record of the named resource: the cached one, or else the one `fetch` reads from
    /// the database, which is then cached.
    pub fn get<F>(&mut self, resource_name: String, fetch: F) -> (result: Result<grpc::Record, Error>) where
        F: FnOnce(&String) -> Result<Record, DatabaseFailure>,

        requires
            old(self).well_formed(),
            old(self).cache().capacity() > 0 || forall|outcome: Result<Record, DatabaseFailure>|
                fetch.ensures((&resource_name,), outcome) ==> outcome is Err,
            fetch.requires((&resource_name,)),
        ensures
            final(self).well_formed(),
            final(self).cache().capacity() == old(self).cache().capacity(),
            old(self).cache().cached().contains_key(resource_name@) ==> (result matches Ok(r)
                && carries(r, old(self).cache().cached()[resource_name@].0.0)),
            !old(self).cache().cached().contains_key(resource_name@) ==> match result {
                Ok(r) => exists|record: Record|
                    #![trigger carries(r, record)]
                    fetch.ensures((&resource_name,), Ok::<Record, DatabaseFailure>(record)) && carries(r, record) && caches(
                        old(self).cache().cached(),
                        old(self).cache().capacity(),
                        final(self).cache().cached(),
                        record,
                    ),
                Err(error) => {
                    &&& exists|failure: DatabaseFailure|
                        #![trigger error_of_database(failure, resource_name)]
                        fetch.ensures((&resource_name,), Err::<Record, DatabaseFailure>(failure))
                            && error == error_of_database(failure, resource_name)
                    &&& final(self).cache().cached() == old(self).cache().cached()
                    &&& final(self).cache().listed() == old(self).cache().listed()
                },
            },
    {
        let name = resource_name.clone();
        let read = move || -> (read: Result<Record, Error>)
            requires
                fetch.requires((&name,)),
            ensures
                match read {
                    Ok(record) => fetch.ensures((&name,), Ok::<Record, DatabaseFailure>(record)),
                    Err(error) => exists|failure: DatabaseFailure|
                        #![trigger error_of_database(failure, name)]
                        fetch.ensures((&name,), Err::<Record, DatabaseFailure>(failure)) && error
                            == error_of_database(failure, name),
                },
            {
                match fetch(&name) {
                    Ok(record) => Ok(record),
                    Err(failure) => Err(Error::from_database(failure, name)),
                }
            };
        match self.cache.get_or_try_insert_with(&resource_name, read) {
            Ok(record) => {
                let ghost r = record;
                let wire = record.into_wire();
                assert(carries(wire, r));
                Ok(wire)
            },
            Err(error) => Err(error),
        }
    }

    /// The names of all stored resources, sorted.
    pub fn list(&self) -> (resources: Vec<grpc::Resource>)
        requires
            self.well_formed(),
        ensures
            crate::sorted::is_sorted(resources@.map_values(|r: grpc::Resource| r.name)),
            crate::sorted::name_set(resources@.map_values(|r: grpc::Resource| r.name))
                == self.cache().listed(),
    {
        let names = self.cache.get_all_resources();
        let resources = list_of_resources(names);
        proof {
            assert(resources@.map_values(|r: grpc::Resource| r.name) =~= names@);
        }
        resources
    }
}

} // verus!
