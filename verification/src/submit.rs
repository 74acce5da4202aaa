//! The `/submit` page of the Web App: preparing a new record for the bot.

use crate::crypto::{self, encrypt};
use crate::data_model::NewRecord;
use crate::text::{join, owned};
use crate::web::{trim, trimmed};
use vstd::prelude::*;
use vstd::string::*;
use vstd::utf8::encode_utf8;

verus! {

/// Errors while submitting a new record.
#[derive(Debug, Clone, PartialEq, Eq)]
pub enum Error {
    /// The input is invalid; carries the reason.
    Validation(String),
    /// The payload could not be encrypted.
    Encryption(crypto::Error),
    /// The data could not be serialized; carries the cause.
    Serialization(String),
    /// The data could not be sent to the bot; carries the cause.
    Sending(String),
}

impl Error {
    /// The error's text.
    pub fn message(&self) -> (text: String)
        ensures
            text@ == submit_error_text(*self),
    {
        match self {
            Error::Validation(reason) => join(owned("Invalid input: "), reason.as_str()),
            Error::Encryption(_) => owned("Failed to encrypt data"),
            Error::Serialization(cause) => join(
                owned("Failed to serialize data: "),
                cause.as_str(),
            ),
            Error::Sending(cause) => join(
                owned("Failed to send data to the bot backend: "),
                cause.as_str(),
            ),
        }
    }
}

/// The text of a [`Error`].
pub open spec fn submit_error_text(error: Error) -> Seq<char> {
    match error {
        Error::Validation(reason) => "Invalid input: "@ + reason@,
        Error::Encryption(_) => "Failed to encrypt data"@,
        Error::Serialization(cause) => "Failed to serialize data: "@ + cause@,
        Error::Sending(cause) => "Failed to send data to the bot backend: "@ + cause@,
    }
}

/// The reason given for an empty resource name.
pub open spec fn empty_name_reason() -> Seq<char> {
    "Resource name cannot be empty"@
}

/// The new record for the typed resource name and the serialized payload: the name without
/// surrounding white space must not be empty, and the payload is encrypted with the master
/// password.
pub fn new_record(resource_name: &str, serialized_payload: &str, master_password: &str) -> (record:
    Result<NewRecord, Error>)
    ensures
        trimmed(resource_name@).len() == 0 ==> (record matches Err(Error::Validation(reason))
            && reason@ == empty_name_reason()),
        trimmed(resource_name@).len() > 0 ==> match record {
            Ok(r) => r.resource_name@ == trimmed(resource_name@) && crypto::encrypts(
                r.encryption_output,
                serialized_payload@,
                master_password@,
            ),
            Err(e) => e == Error::Encryption(crypto::Error::Encryption) && exists|salt: Seq<u8>|
                crypto::aes_gcm_sealed(
                    crypto::derived_key(master_password@),
                    salt,
                    encode_utf8(serialized_payload@),
                ) is None,
        },
        trimmed(resource_name@).len() > 0 && encode_utf8(serialized_payload@).len()
            <= crypto::plaintext_max() ==> record is Ok,
{
    let name = trim(resource_name);
    if name.as_str().unicode_len() == 0 {
        return Err(Error::Validation(owned("Resource name cannot be empty")));
    }
    match encrypt(serialized_payload, master_password) {
        Ok(encryption_output) => Ok(NewRecord { resource_name: name, encryption_output }),
        Err(e) => Err(Error::Encryption(e)),
    }
}

} // verus!
