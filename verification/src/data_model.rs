//! Common data structures transferred between the services.

use crate::crypto::EncryptionOutput;
use vstd::prelude::*;

verus! {

/// Data to store a new record.
#[derive(Debug, Clone, PartialEq, Eq, Hash)]
pub struct NewRecord {
    /// Name of the resource.
    pub resource_name: String,
    /// Encrypted payload with its salt.
    pub encryption_output: EncryptionOutput,
}

} // verus!
