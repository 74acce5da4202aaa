//! The password storage service: its database record, its errors and how they are
//! answered, and the decisions it makes around the database.

use crate::grpc;
use crate::text::{join, owned};
use vstd::prelude::*;

verus! {

/// A record of the `passwords` table.
#[derive(Debug, Clone, PartialEq, Eq)]
pub struct Record {
    /// Name of the resource.
    pub resource_name: String,
    /// Payload encrypted with the master password.
    pub encrypted_payload: Vec<u8>,
    /// Salt applied to the payload.
    pub salt: Vec<u8>,
}

impl View for Record {
    /// The resource name, the encrypted payload and the salt.
    type V = (Seq<char>, Seq<u8>, Seq<u8>);

    open spec fn view(&self) -> (Seq<char>, Seq<u8>, Seq<u8>) {
        (self.resource_name@, self.encrypted_payload@, self.salt@)
    }
}

/// A record on the wire lacked its `resource` field.
#[derive(Debug, Clone, Copy, PartialEq, Eq)]
pub struct ResourceIsMissingError;

impl ResourceIsMissingError {
    /// The error's text: "`resource` is missing".
    pub fn message(&self) -> (text: String)
        ensures
            text@ == "`resource` is missing"@,
    {
        owned("`resource` is missing")
    }
}

/// A byte-for-byte copy of `bytes`.
pub fn copy_bytes(bytes: &Vec<u8>) -> (copy: Vec<u8>)
    ensures
        copy@ == bytes@,
{
    let mut copy: Vec<u8> = Vec::new();
    let mut i: usize = 0;
    while i < bytes.len()
        invariant
            i <= bytes@.len(),
            copy@ == bytes@.take(i as int),
        decreases bytes@.len() - i,
    {
        copy.push(bytes[i]);
        proof {
            assert(bytes@.take(i + 1) =~= bytes@.take(i as int).push(bytes@[i as int]));
        }
        i = i + 1;
    }
    proof {
        assert(bytes@.take(bytes@.len() as int) =~= bytes@);
    }
    copy
}

/// The stored record of a record received on the wire, which must name its resource.
pub open spec fn record_of_wire(value: grpc::Record) -> Result<Record, ResourceIsMissingError> {
    match value.resource {
        Some(resource) => Ok(
            Record {
                resource_name: resource.name,
                encrypted_payload: value.encrypted_payload,
                salt: value.salt,
            },
        ),
        None => Err(ResourceIsMissingError),
    }
}

/// The wire form of a stored record.
pub open spec fn wire_of_record(value: Record) -> grpc::Record {
    grpc::Record {
        resource: Some(grpc::Resource { name: value.resource_name }),
        encrypted_payload: value.encrypted_payload,
        salt: value.salt,
    }
}

impl Record {
    /// The stored record of a record received on the wire; fails when the wire record
    /// names no resource.
    pub fn try_from_wire(value: grpc::Record) -> (record: Result<Record, ResourceIsMissingError>)
        ensures
            record == record_of_wire(value),
    {
        let grpc::Record { resource, encrypted_payload, salt } = value;
        match resource {
            Some(resource) => Ok(Record { resource_name: resource.name, encrypted_payload, salt }),
            None => Err(ResourceIsMissingError),
        }
    }

    /// The wire form of this record.
    pub fn into_wire(self) -> (value: grpc::Record)
        ensures
            value == wire_of_record(self),
    {
        grpc::Record {
            resource: Some(grpc::Resource { name: self.resource_name }),
            encrypted_payload: self.encrypted_payload,
            salt: self.salt,
        }
    }

    /// A copy of this record with the same fields.
    pub fn duplicate(&self) -> (copy: Record)
        ensures
            copy@ == self@,
    {
        Record {
            resource_name: self.resource_name.clone(),
            encrypted_payload: copy_bytes(&self.encrypted_payload),
            salt: copy_bytes(&self.salt),
        }
    }
}

/// Converting a record to the wire and back gives the same record.
pub proof fn law_wire_round_trip(record: Record)
    ensures
        record_of_wire(wire_of_record(record)) == Ok::<Record, ResourceIsMissingError>(record),
{
}

/// How a database call failed.
#[derive(Debug, Clone, PartialEq, Eq)]
pub enum DatabaseFailure {
    /// The queried row does not exist.
    NotFound,
    /// A row with the same key already exists.
    UniqueViolation,
    /// Any other failure, with its description.
    Other(String),
}

/// Errors of the password storage service.
#[derive(Debug, Clone, PartialEq, Eq)]
pub enum Error {
    /// The database connection pool could not be created; carries the cause.
    FailedToCreateConnectionPool(String),
    /// No connection could be taken from the pool; carries the cause.
    FailedToGetConnectionFromThePool(String),
    /// The database failed; carries the cause.
    Database(String),
    /// The request held an invalid record.
    InvalidRecord(ResourceIsMissingError),
    /// A password for the named resource already exists.
    AlreadyExists(String),
    /// The named resource is not stored.
    NotFound(String),
}

/// The error for a database failure on the named resource: a missing row and a duplicate
/// key are told apart, every other failure stays a database error.
pub open spec fn error_of_database(failure: DatabaseFailure, resource_name: String) -> Error {
    match failure {
        DatabaseFailure::NotFound => Error::NotFound(resource_name),
        DatabaseFailure::UniqueViolation => Error::AlreadyExists(resource_name),
        DatabaseFailure::Other(cause) => Error::Database(cause),
    }
}

/// The text of an error.
pub open spec fn error_text(error: Error) -> Seq<char> {
    match error {
        Error::FailedToCreateConnectionPool(cause) => "Failed to create connection pool: "@
            + cause@,
        Error::FailedToGetConnectionFromThePool(cause) => "Failed to get connection from the pool: "@
            + cause@,
        Error::Database(cause) => "Database failure: "@ + cause@,
        Error::InvalidRecord(_) => "Invalid record: "@ + "`resource` is missing"@,
        Error::AlreadyExists(name) => "Password for resource `"@ + name@ + "` already exists"@,
        Error::NotFound(name) => "Resource `"@ + name@ + "` not found"@,
    }
}

/// Status codes of the answers to failed requests.
#[derive(Debug, Clone, Copy, PartialEq, Eq, Structural)]
pub enum Code {
    /// The request was invalid.
    InvalidArgument,
    /// The requested resource does not exist.
    NotFound,
    /// The resource to create already exists.
    AlreadyExists,
    /// The service failed.
    Internal,
}

/// The answer to a failed request: a code and a message for the client.
#[derive(Debug, Clone, PartialEq, Eq)]
pub struct Status {
    /// The status code.
    pub code: Code,
    /// The message shown to the client.
    pub message: String,
}

/// The code that answers an error.
pub open spec fn code_of(error: Error) -> Code {
    match error {
        Error::FailedToCreateConnectionPool(_)
        | Error::FailedToGetConnectionFromThePool(_)
        | Error::Database(_) => Code::Internal,
        Error::InvalidRecord(_) => Code::InvalidArgument,
        Error::AlreadyExists(_) => Code::AlreadyExists,
        Error::NotFound(_) => Code::NotFound,
    }
}

/// The message that answers an error: internal failures are not described to the client,
/// every other error is answered with its text.
pub open spec fn status_message(error: Error) -> Seq<char> {
    if code_of(error) == Code::Internal {
        "Internal error, please try again later"@
    } else {
        error_text(error)
    }
}

impl Error {
    /// The error for a database failure on the named resource.
    pub fn from_database(failure: DatabaseFailure, resource_name: String) -> (error: Error)
        ensures
            error == error_of_database(failure, resource_name),
    {
        match failure {
            DatabaseFailure::NotFound => Error::NotFound(resource_name),
            DatabaseFailure::UniqueViolation => Error::AlreadyExists(resource_name),
            DatabaseFailure::Other(cause) => Error::Database(cause),
        }
    }

    /// The error's text.
    pub fn message(&self) -> (text: String)
        ensures
            text@ == error_text(*self),
    {
        match self {
            Error::FailedToCreateConnectionPool(cause) => join(
                owned("Failed to create connection pool: "),
                cause.as_str(),
            ),
            Error::FailedToGetConnectionFromThePool(cause) => join(
                owned("Failed to get connection from the pool: "),
                cause.as_str(),
            ),
            Error::Database(cause) => join(owned("Database failure: "), cause.as_str()),
            Error::InvalidRecord(missing) => {
                let text = missing.message();
                join(owned("Invalid record: "), text.as_str())
            },
            Error::AlreadyExists(name) => join(
                join(owned("Password for resource `"), name.as_str()),
                "` already exists",
            ),
            Error::NotFound(name) => join(
                join(owned("Resource `"), name.as_str()),
                "` not found",
            ),
        }
    }

    /// The answer to the client for this error.
    pub fn status(&self) -> (status: Status)
        ensures
            status.code == code_of(*self),
            status.message@ == status_message(*self),
    {
        match self {
            Error::FailedToCreateConnectionPool(_)
            | Error::FailedToGetConnectionFromThePool(_)
            | Error::Database(_) => Status {
                code: Code::Internal,
                message: owned("Internal error, please try again later"),
            },
            Error::InvalidRecord(_) => Status { code: Code::InvalidArgument, message: self.message() },
            Error::AlreadyExists(_) => Status { code: Code::AlreadyExists, message: self.message() },
            Error::NotFound(_) => Status { code: Code::NotFound, message: self.message() },
        }
    }
}

/// The value of the decimal digits `digits`.
pub open spec fn decimal_value(digits: Seq<char>) -> int
    decreases digits.len(),
{
    if digits.len() == 0 {
        0
    } else {
        decimal_value(digits.drop_last()) * 10 + (digits.last() as int - '0' as int)
    }
}

/// Every character of `s` is a decimal digit.
pub open spec fn all_decimal_digits(s: Seq<char>) -> bool {
    forall|i: int| 0 <= i < s.len() ==> '0' <= #[trigger] s[i] && s[i] <= '9'
}

/// The `u32` that `text` writes: an optional `+` and then one or more decimal digits whose
/// value fits in a `u32`; `None` for any other text.
pub open spec fn written_u32(text: Seq<char>) -> Option<u32> {
    let digits = if text.len() > 0 && text[0] == '+' {
        text.drop_first()
    } else {
        text
    };
    if digits.len() > 0 && all_decimal_digits(digits) && decimal_value(digits) <= u32::MAX {
        Some(decimal_value(digits) as u32)
    } else {
        None
    }
}

/// The value of decimal digits is at least that of any prefix of them.
proof fn lemma_decimal_value_grows(digits: Seq<char>, k: int)
    requires
        0 <= k <= digits.len(),
        all_decimal_digits(digits),
    ensures
        decimal_value(digits.take(k)) <= decimal_value(digits),
        0 <= decimal_value(digits),
    decreases digits.len(),
{
    if digits.len() > 0 {
        let rest = digits.drop_last();
        assert(all_decimal_digits(rest)) by {
            assert forall|i: int| 0 <= i < rest.len() implies '0' <= #[trigger] rest[i] && rest[i]
                <= '9' by {
                assert(digits[i] == rest[i]);
            }
        }
        assert('0' <= digits[digits.len() - 1]);
        if k < digits.len() {
            lemma_decimal_value_grows(rest, k);
            assert(rest.take(k) =~= digits.take(k));
        } else {
            lemma_decimal_value_grows(rest, 0);
            assert(digits.take(k) =~= digits);
        }
    }
}

/// Parses `text` as a `u32` as `str::parse` does: an optional `+` followed by one or more
/// decimal digits whose value fits in a `u32`.
fn parse_u32(text: &str) -> (parsed: Option<u32>)
    ensures
        parsed == written_u32(text@),
{
    let len = text.unicode_len();
    let mut start: usize = 0;
    if len > 0 && text.get_char(0) == '+' {
        start = 1;
    }
    let ghost digits = if text@.len() > 0 && text@[0] == '+' {
        text@.drop_first()
    } else {
        text@
    };
    proof {
        assert(digits =~= text@.skip(start as int));
    }
    if start == len {
        return None;
    }
    let mut value: u64 = 0;
    let mut i: usize = start;
    proof {
        assert(digits.take(0) =~= Seq::<char>::empty());
    }
    while i < len
        invariant
            start <= i <= len,
            len == text@.len(),
            digits =~= text@.skip(start as int),
            digits == (if text@.len() > 0 && text@[0] == '+' {
                text@.drop_first()
            } else {
                text@
            }),
            value == decimal_value(digits.take(i - start)),
            value <= u32::MAX,
            forall|j: int| 0 <= j < i - start ==> '0' <= #[trigger] digits[j] && digits[j] <= '9',
        decreases len - i,
    {
        let c = text.get_char(i);
        proof {
            assert(c == digits[i - start]);
        }
        if !('0' <= c && c <= '9') {
            proof {
                assert(!all_decimal_digits(digits)) by {
                    assert(!('0' <= digits[i - start] && digits[i - start] <= '9'));
                }
                assert(written_u32(text@) is None);
            }
            return None;
        }
        let d = (c as u32 - '0' as u32) as u64;
        let next = value * 10 + d;
        proof {
            let k = i - start;
            assert(digits.take(k + 1).drop_last() =~= digits.take(k));
            assert(digits.take(k + 1).last() == c);
        }
        if next > u32::MAX as u64 {
            proof {
                if all_decimal_digits(digits) {
                    lemma_decimal_value_grows(digits, i - start + 1);
                    assert(decimal_value(digits) > u32::MAX);
                }
                assert(written_u32(text@) is None);
            }
            return None;
        }
        value = next;
        i = i + 1;
    }
    proof {
        assert(digits.take(len - start) =~= digits);
    }
    Some(value as u32)
}

/// The cache size used when none is configured.
pub const CACHE_SIZE_DEFAULT_VALUE: u32 = 1024;

/// The environment variable that configures the cache size, as the process found it.
#[derive(Debug, Clone, PartialEq, Eq)]
pub enum CacheSizeVar {
    /// The variable is not set.
    NotPresent,
    /// The variable is set but is not valid Unicode.
    NotUnicode,
    /// The variable's value.
    Present(String),
}

/// Why the configured cache size cannot be used.
#[derive(Debug, Clone, Copy, PartialEq, Eq)]
pub enum CacheSizeError {
    /// The value is not an unsigned 32-bit integer.
    NotAnInteger,
    /// The value is not valid Unicode.
    NotUnicode,
}

impl CacheSizeError {
    /// The error's text.
    pub fn message(&self) -> (text: String)
        ensures
            *self == CacheSizeError::NotAnInteger ==> text@
                == "Failed to parse `PASSWORD_STORAGE_CACHE_SIZE` environment variable as integer"@,
            *self == CacheSizeError::NotUnicode ==> text@
                == "`PASSWORD_STORAGE_CACHE_SIZE` environment variable is not in unicode format"@,
    {
        match self {
            CacheSizeError::NotAnInteger => owned(
                "Failed to parse `PASSWORD_STORAGE_CACHE_SIZE` environment variable as integer",
            ),
            CacheSizeError::NotUnicode => owned(
                "`PASSWORD_STORAGE_CACHE_SIZE` environment variable is not in unicode format",
            ),
        }
    }
}

/// The cache size that the environment variable configures: the default when it is unset or
/// empty, else its value as a `u32`.
pub fn cache_size(var: &CacheSizeVar) -> (size: Result<u32, CacheSizeError>)
    ensures
        match var {
            CacheSizeVar::NotPresent => size == Ok::<u32, CacheSizeError>(CACHE_SIZE_DEFAULT_VALUE),
            CacheSizeVar::NotUnicode => size == Err::<u32, CacheSizeError>(CacheSizeError::NotUnicode),
            CacheSizeVar::Present(value) => if value@.len() == 0 {
                size == Ok::<u32, CacheSizeError>(CACHE_SIZE_DEFAULT_VALUE)
            } else {
                match written_u32(value@) {
                    Some(n) => size == Ok::<u32, CacheSizeError>(n),
                    None => size == Err::<u32, CacheSizeError>(CacheSizeError::NotAnInteger),
                }
            },
        },
{
    match var {
        CacheSizeVar::NotPresent => Ok(CACHE_SIZE_DEFAULT_VALUE),
        CacheSizeVar::NotUnicode => Err(CacheSizeError::NotUnicode),
        CacheSizeVar::Present(value) => {
            if value.as_str().unicode_len() == 0 {
                Ok(CACHE_SIZE_DEFAULT_VALUE)
            } else {
                match parse_u32(value.as_str()) {
                    Some(n) => Ok(n),
                    None => Err(CacheSizeError::NotAnInteger),
                }
            }
        },
    }
}

/// The answer to the `list` request: one resource per listed name, in order.
pub fn list_of_resources(names: Vec<String>) -> (resources: Vec<grpc::Resource>)
    ensures
        resources@.len() == names@.len(),
        forall|i: int| 0 <= i < names@.len() ==> #[trigger] resources@[i].name == names@[i],
{
    let mut resources: Vec<grpc::Resource> = Vec::new();
    let mut rest = names;
    let ghost all = rest@;
    let total = rest.len();
    let mut n: usize = 0;
    while rest.len() > 0
        invariant
            all.len() == total,
            n + rest@.len() == all.len(),
            rest@ == all.skip(n as int),
            resources@.len() == n,
            forall|i: int| 0 <= i < n ==> #[trigger] resources@[i].name == all[i],
        decreases rest@.len(),
    {
        let name = rest.remove(0);
        proof {
            assert(name == all[n as int]);
            assert(rest@ =~= all.skip(n + 1));
        }
        resources.push(grpc::Resource { name });
        n = n + 1;
    }
    resources
}

} // verus!
