//! The `/show` page of the Web App: reading its query and decrypting the record it carries.

use crate::crypto::{self, decrypt, EncryptionOutput, Salt, SALT_SIZE};
use crate::keyboard::base64_url_safe_text;
use crate::text::{join, owned};
use base64::engine::general_purpose::URL_SAFE;
use base64::Engine;
use vstd::prelude::*;

verus! {

/// The bytes that the URL-safe base64 text `text` (with padding) decodes to, or `None` when
/// it is no such text.
pub uninterp spec fn base64_url_safe_decoded(text: Seq<char>) -> Option<Seq<u8>>;

/// Calls `base64::Engine::decode` of the `URL_SAFE` engine: the result is the named decoding
/// of the text, and decoding the engine's own encoding of some bytes gives those bytes back.
#[verifier::external_body]
fn base64_url_safe_decode(text: &str) -> (bytes: Option<Vec<u8>>)
    ensures
        match bytes {
            Some(b) => base64_url_safe_decoded(text@) == Some(b@),
            None => base64_url_safe_decoded(text@) is None,
        },
        forall|encoded: Seq<u8>|
            text@ == base64_url_safe_text(encoded) ==> bytes is Some && bytes.unwrap()@ == encoded,
{
    URL_SAFE.decode(text).ok()
}

/// Errors while showing a record.
#[derive(Debug, Clone, PartialEq, Eq)]
pub enum Error {
    /// The query could not be parsed; carries the cause.
    ParamsParsing(String),
    /// The payload or the salt is missing.
    MissingParams,
    /// The payload or the salt is not URL-safe base64.
    Base64Decoding,
    /// The salt does not have the salt's length.
    WrongSaltLength,
    /// The payload could not be decrypted.
    Decryption(crypto::Error),
    /// The decrypted payload could not be read; carries the cause.
    Deserialization(String),
}

impl Error {
    /// The error's text.
    pub fn message(&self) -> (text: String)
        ensures
            text@ == show_error_text(*self),
    {
        match self {
            Error::ParamsParsing(_) => owned("Failed to parse query"),
            Error::MissingParams => owned("Both payload and salt must be provided"),
            Error::Base64Decoding => owned("Failed to decode payload or salt"),
            Error::WrongSaltLength => owned("Wrong salt length"),
            Error::Decryption(_) => owned("Failed to decrypt data"),
            Error::Deserialization(cause) => join(
                owned("Failed to deserialize data: "),
                cause.as_str(),
            ),
        }
    }
}

/// The text of a [`Error`].
pub open spec fn show_error_text(error: Error) -> Seq<char> {
    match error {
        Error::ParamsParsing(_) => "Failed to parse query"@,
        Error::MissingParams => "Both payload and salt must be provided"@,
        Error::Base64Decoding => "Failed to decode payload or salt"@,
        Error::WrongSaltLength => "Wrong salt length"@,
        Error::Decryption(_) => "Failed to decrypt data"@,
        Error::Deserialization(cause) => "Failed to deserialize data: "@ + cause@,
    }
}

/// The parameters of the `/show` URL as they were found in the query.
#[derive(Debug, Clone, PartialEq, Eq)]
pub struct QueryParamsCandidate {
    /// Name of the displayed resource.
    pub resource_name: Option<String>,
    /// Encrypted payload, URL-safe base64.
    pub payload: Option<String>,
    /// Salt of the encryption, URL-safe base64.
    pub salt: Option<String>,
}

/// The decoded parameters of the `/show` URL.
#[derive(Debug, Clone, PartialEq, Eq)]
pub struct QueryParams {
    /// Name of the displayed resource.
    pub resource_name: Option<String>,
    /// Encrypted payload.
    pub payload: Vec<u8>,
    /// Salt used for encryption.
    pub salt: Salt,
}

/// What reading the query parameters gives: the payload and salt must both be present and
/// decode, and the salt must have the salt's length.
pub open spec fn query_params_of(candidate: QueryParamsCandidate) -> Result<
    (Option<String>, Seq<u8>, Seq<u8>),
    Error,
> {
    match (candidate.payload, candidate.salt) {
        (Some(payload), Some(salt)) => match base64_url_safe_decoded(payload@) {
            None => Err(Error::Base64Decoding),
            Some(payload_bytes) => match base64_url_safe_decoded(salt@) {
                None => Err(Error::Base64Decoding),
                Some(salt_bytes) => if salt_bytes.len() == SALT_SIZE {
                    Ok((candidate.resource_name, payload_bytes, salt_bytes))
                } else {
                    Err(Error::WrongSaltLength)
                },
            },
        },
        _ => Err(Error::MissingParams),
    }
}

/// `param` is present and is the URL-safe base64 encoding of `bytes`.
pub open spec fn encodes(param: Option<String>, bytes: Seq<u8>) -> bool {
    param matches Some(text) && text@ == base64_url_safe_text(bytes)
}

/// The salt with the bytes of `bytes`, which has the salt's length.
fn salt_of(bytes: &Vec<u8>) -> (salt: Salt)
    requires
        bytes@.len() == SALT_SIZE,
    ensures
        salt@ == bytes@,
{
    let mut salt: Salt = [0u8; 12];
    let mut i: usize = 0;
    while i < SALT_SIZE
        invariant
            i <= SALT_SIZE,
            bytes@.len() == SALT_SIZE,
            salt@.len() == SALT_SIZE,
            forall|j: int| 0 <= j < i ==> salt@[j] == bytes@[j],
        decreases SALT_SIZE - i,
    {
        salt[i] = bytes[i];
        i = i + 1;
    }
    proof {
        assert(salt@ =~= bytes@);
    }
    salt
}

impl QueryParams {
    /// Read the parameters of the `/show` URL.
    pub fn parse(candidate: QueryParamsCandidate) -> (params: Result<QueryParams, Error>)
        ensures
            match query_params_of(candidate) {
                Ok((name, payload, salt)) => params matches Ok(p) && p.resource_name == name
                    && p.payload@ == payload && p.salt@ == salt,
                Err(e) => params == Err::<QueryParams, Error>(e),
            },
            forall|payload: Seq<u8>, salt: Seq<u8>|
                #![trigger base64_url_safe_text(payload), base64_url_safe_text(salt)]
                encodes(candidate.payload, payload) && encodes(candidate.salt, salt) && salt.len()
                    == SALT_SIZE ==> (params matches Ok(p) && p.resource_name
                    == candidate.resource_name && p.payload@ == payload && p.salt@ == salt),
    {
        let QueryParamsCandidate { resource_name, payload, salt } = candidate;
        let (payload, salt) = match (payload, salt) {
            (Some(payload), Some(salt)) => (payload, salt),
            _ => {
                return Err(Error::MissingParams);
            },
        };
        let payload = match base64_url_safe_decode(payload.as_str()) {
            Some(bytes) => bytes,
            None => {
                return Err(Error::Base64Decoding);
            },
        };
        let salt = match base64_url_safe_decode(salt.as_str()) {
            Some(bytes) => bytes,
            None => {
                return Err(Error::Base64Decoding);
            },
        };
        QueryParams::from_decoded(resource_name, payload, salt)
    }

    /// The parameters from the decoded payload and salt: the salt must have the salt's
    /// length.
    pub fn from_decoded(resource_name: Option<String>, payload: Vec<u8>, salt: Vec<u8>) -> (params:
        Result<QueryParams, Error>)
        ensures
            salt@.len() == SALT_SIZE ==> (params matches Ok(p) && p.resource_name == resource_name
                && p.payload == payload && p.salt@ == salt@),
            salt@.len() != SALT_SIZE ==> params == Err::<QueryParams, Error>(Error::WrongSaltLength),
    {
        if salt.len() != SALT_SIZE {
            return Err(Error::WrongSaltLength);
        }
        let salt = salt_of(&salt);
        Ok(QueryParams { resource_name, payload, salt })
    }

    /// Decrypt the payload with the master password; the text is the serialized payload.
    pub fn decrypt(self, master_password: &str) -> (text: Result<String, Error>)
        ensures
            match crypto::decryption(self.payload@, self.salt@, master_password@) {
                Ok(t) => text matches Ok(s) && s@ == t,
                Err(e) => text == Err::<String, Error>(Error::Decryption(e)),
            },
    {
        match decrypt(EncryptionOutput { encrypted_payload: self.payload, salt: self.salt }, master_password) {
            Ok(text) => Ok(text),
            Err(e) => Err(Error::Decryption(e)),
        }
    }
}

} // verus!
