//! Encryption and decryption of passwords: AES-256-GCM under a key derived from the master
//! password with PBKDF2-HMAC-SHA256.

use aes_gcm::aead::{Aead, AeadCore, KeyInit, OsRng};
use aes_gcm::{Aes256Gcm, Key, Nonce};
use vstd::prelude::*;
use vstd::utf8::*;

verus! {

/// Size of the salt in bytes.
pub const SALT_SIZE: usize = 12;

/// Size of the derived key in bytes.
pub const KEY_SIZE: usize = 32;

/// Number of hashing rounds of the key derivation.
pub const KEY_DERIVATION_ITERATION_ROUNDS: u32 = 100_000;

/// Encryption salt.
pub type Salt = [u8; SALT_SIZE];

/// Output of encryption.
#[derive(Debug, Clone, PartialEq, Eq, Hash)]
pub struct EncryptionOutput {
    /// Payload encrypted with a password.
    pub encrypted_payload: Vec<u8>,
    /// Salt used for encryption.
    pub salt: Salt,
}

/// Encryption / decryption error.
#[derive(Debug, Copy, Clone, PartialEq, Eq, Structural)]
pub enum Error {
    /// Failed to encrypt payload.
    Encryption,
    /// Failed to decrypt payload.
    Decryption,
    /// Failed to parse decrypted payload as UTF-8.
    Utf8,
}

/// The key PBKDF2-HMAC-SHA256 derives from `password` with `salt` in `rounds` rounds.
pub uninterp spec fn pbkdf2_sha256(password: Seq<u8>, salt: Seq<u8>, rounds: u32) -> Seq<u8>;

/// The AES-256-GCM ciphertext (with tag) of `plaintext` under `key` and `nonce`, or `None`
/// when the cipher refuses it.
pub uninterp spec fn aes_gcm_sealed(key: Seq<u8>, nonce: Seq<u8>, plaintext: Seq<u8>) -> Option<
    Seq<u8>,
>;

/// The plaintext AES-256-GCM recovers from `ciphertext` under `key` and `nonce`, or `None`
/// when the ciphertext does not authenticate.
pub uninterp spec fn aes_gcm_opened(key: Seq<u8>, nonce: Seq<u8>, ciphertext: Seq<u8>) -> Option<
    Seq<u8>,
>;

/// Calls `pbkdf2::pbkdf2_hmac_array::<sha2::Sha256, 32>`: the result is the PBKDF2-HMAC-SHA256
/// key of `password` with `salt` and `rounds`, a function of these arguments alone.
#[verifier::external_body]
fn pbkdf2_hmac_sha256(password: &[u8], salt: &[u8], rounds: u32) -> (key: [u8; KEY_SIZE])
    ensures
        key@ == pbkdf2_sha256(password@, salt@, rounds),
{
    pbkdf2::pbkdf2_hmac_array::<sha2::Sha256, KEY_SIZE>(password, salt, rounds)
}

/// Calls `Aes256Gcm::generate_nonce` with the operating system's random number generator.
/// Nothing is claimed of the nonce: it is random.
#[verifier::external_body]
fn random_nonce() -> (nonce: Salt) {
    Aes256Gcm::generate_nonce(&mut OsRng).into()
}

/// The longest plaintext AES-GCM encrypts, in bytes.
pub open spec fn plaintext_max() -> nat {
    0x10_0000_0000
}

/// Calls `Aead::encrypt` of `Aes256Gcm` (no associated data): the result is the named
/// ciphertext of these arguments, and, as for every AEAD cipher, `Aead::decrypt` with the
/// same key and nonce gives the plaintext back. The cipher refuses only plaintexts longer
/// than 2^36 bytes.
#[verifier::external_body]
fn aes_gcm_encrypt(key: &[u8; KEY_SIZE], nonce: &Salt, plaintext: &[u8]) -> (sealed: Option<
    Vec<u8>,
>)
    ensures
        plaintext@.len() <= plaintext_max() ==> sealed is Some,
        match sealed {
            Some(c) => aes_gcm_sealed(key@, nonce@, plaintext@) == Some(c@) && aes_gcm_opened(
                key@,
                nonce@,
                c@,
            ) == Some(plaintext@),
            None => aes_gcm_sealed(key@, nonce@, plaintext@) is None,
        },
{
    Aes256Gcm::new(Key::<Aes256Gcm>::from_slice(key)).encrypt(Nonce::from_slice(nonce), plaintext).ok()
}

/// Calls `Aead::decrypt` of `Aes256Gcm` (no associated data): the result is the named
/// plaintext of these arguments.
#[verifier::external_body]
fn aes_gcm_decrypt(key: &[u8; KEY_SIZE], nonce: &Salt, ciphertext: &[u8]) -> (opened: Option<
    Vec<u8>,
>)
    ensures
        match opened {
            Some(p) => aes_gcm_opened(key@, nonce@, ciphertext@) == Some(p@),
            None => aes_gcm_opened(key@, nonce@, ciphertext@) is None,
        },
{
    Aes256Gcm::new(Key::<Aes256Gcm>::from_slice(key)).decrypt(Nonce::from_slice(nonce), ciphertext).ok()
}

/// Calls `String::from_utf8`: it succeeds exactly on valid UTF-8, and the string then holds
/// the characters those bytes encode.
#[verifier::external_body]
fn string_from_utf8(bytes: Vec<u8>) -> (text: Option<String>)
    ensures
        text is Some <==> valid_utf8(bytes@),
        text matches Some(t) ==> t@ == decode_utf8(bytes@),
{
    String::from_utf8(bytes).ok()
}

/// Salt of the key derivation.
pub open spec fn key_derivation_salt() -> Seq<u8> {
    encode_utf8("telepass_key_derivation_salt"@)
}

/// The encryption key of a master password.
pub open spec fn derived_key(password: Seq<char>) -> Seq<u8> {
    pbkdf2_sha256(encode_utf8(password), key_derivation_salt(), KEY_DERIVATION_ITERATION_ROUNDS)
}

/// `output` is an encryption of `payload` with `password`: its payload is the AES-256-GCM
/// ciphertext of the payload's UTF-8 bytes under the derived key and the output's salt, and
/// that ciphertext opens to those bytes again.
pub open spec fn encrypts(output: EncryptionOutput, payload: Seq<char>, password: Seq<char>) -> bool {
    &&& aes_gcm_sealed(derived_key(password), output.salt@, encode_utf8(payload)) == Some(
        output.encrypted_payload@,
    )
    &&& aes_gcm_opened(derived_key(password), output.salt@, output.encrypted_payload@) == Some(
        encode_utf8(payload),
    )
}

/// What decrypting `encrypted_payload` with `salt` and `password` gives.
pub open spec fn decryption(encrypted_payload: Seq<u8>, salt: Seq<u8>, password: Seq<char>) -> Result<
    Seq<char>,
    Error,
> {
    match aes_gcm_opened(derived_key(password), salt, encrypted_payload) {
        None => Err(Error::Decryption),
        Some(bytes) => if valid_utf8(bytes) {
            Ok(decode_utf8(bytes))
        } else {
            Err(Error::Utf8)
        },
    }
}

/// Construct the encryption key from a string password.
fn derive_key(password: &str) -> (key: [u8; KEY_SIZE])
    ensures
        key@ == derived_key(password@),
{
    let salt = "telepass_key_derivation_salt".as_bytes();
    pbkdf2_hmac_sha256(password.as_bytes(), salt, KEY_DERIVATION_ITERATION_ROUNDS)
}

/// Encrypt `payload` with `password`, using a fresh random salt.
///
/// # Errors
///
/// Fails with [`Error::Encryption`] when the cipher refuses the payload under the
/// chosen salt.
pub fn encrypt(payload: &str, password: &str) -> (output: Result<EncryptionOutput, Error>)
    ensures
        match output {
            Ok(o) => encrypts(o, payload@, password@),
            Err(e) => e == Error::Encryption && exists|salt: Seq<u8>|
                aes_gcm_sealed(derived_key(password@), salt, encode_utf8(payload@)) is None,
        },
        encode_utf8(payload@).len() <= plaintext_max() ==> output is Ok,
{
    let key = derive_key(password);
    let nonce = random_nonce();
    match aes_gcm_encrypt(&key, &nonce, payload.as_bytes()) {
        Some(encrypted_payload) => Ok(EncryptionOutput { encrypted_payload, salt: nonce }),
        None => Err(Error::Encryption),
    }
}

/// Decrypt `output` with `password`.
///
/// # Errors
///
/// [`Error::Decryption`] when the payload does not authenticate under the password and
/// salt; [`Error::Utf8`] when the decrypted bytes are not UTF-8.
pub fn decrypt(output: EncryptionOutput, password: &str) -> (payload: Result<String, Error>)
    ensures
        match payload {
            Ok(p) => decryption(output.encrypted_payload@, output.salt@, password@) == Ok::<
                Seq<char>,
                Error,
            >(p@),
            Err(e) => decryption(output.encrypted_payload@, output.salt@, password@) == Err::<
                Seq<char>,
                Error,
            >(e),
        },
{
    let key = derive_key(password);
    match aes_gcm_decrypt(&key, &output.salt, output.encrypted_payload.as_slice()) {
        None => Err(Error::Decryption),
        Some(bytes) => match string_from_utf8(bytes) {
            Some(text) => Ok(text),
            None => Err(Error::Utf8),
        },
    }
}

/// Decrypting an encryption of `payload` with the same password gives `payload` back.
pub proof fn law_decrypt_inverts_encrypt(
    output: EncryptionOutput,
    payload: Seq<char>,
    password: Seq<char>,
)
    requires
        encrypts(output, payload, password),
    ensures
        decryption(output.encrypted_payload@, output.salt@, password) == Ok::<Seq<char>, Error>(
            payload,
        ),
{
    encode_utf8_valid_utf8(payload);
    encode_utf8_decode_utf8(payload);
}

} // verus!
