//! Messages exchanged with the password storage service.

use crate::crypto::{EncryptionOutput, SALT_SIZE};
use crate::data_model::NewRecord;
use vstd::prelude::*;

verus! {

/// A resource (the thing a password belongs to), identified by name.
#[derive(Debug, Clone, PartialEq, Eq)]
pub struct Resource {
    /// Name of the resource.
    pub name: String,
}

/// A stored record: resource, encrypted payload and the salt of its encryption.
#[derive(Debug, Clone, PartialEq, Eq)]
pub struct Record {
    /// The resource the record belongs to.
    pub resource: Option<Resource>,
    /// Payload encrypted with the master password.
    pub encrypted_payload: Vec<u8>,
    /// Salt used for encryption.
    pub salt: Vec<u8>,
}

/// The bytes of a salt, in order.
fn salt_bytes(salt: &[u8; SALT_SIZE]) -> (bytes: Vec<u8>)
    ensures
        bytes@ == salt@,
{
    let mut bytes = Vec::new();
    let mut i: usize = 0;
    while i < SALT_SIZE
        invariant
            i <= SALT_SIZE,
            salt@.len() == SALT_SIZE,
            bytes@ == salt@.take(i as int),
        decreases SALT_SIZE - i,
    {
        bytes.push(salt[i]);
        proof {
            assert(salt@.take(i + 1) =~= salt@.take(i as int).push(salt@[i as int]));
        }
        i = i + 1;
    }
    proof {
        assert(salt@.take(SALT_SIZE as int) =~= salt@);
    }
    bytes
}

impl Record {
    /// The record to store for a new record submitted by the user.
    pub fn from_new_record(record: NewRecord) -> (stored: Record)
        ensures
            stored.resource == Some(Resource { name: record.resource_name }),
            stored.encrypted_payload == record.encryption_output.encrypted_payload,
            stored.salt@ == record.encryption_output.salt@,
    {
        let NewRecord { resource_name, encryption_output } = record;
        let EncryptionOutput { encrypted_payload, salt } = encryption_output;
        Record {
            resource: Some(Resource { name: resource_name }),
            encrypted_payload,
            salt: salt_bytes(&salt),
        }
    }
}

} // verus!
