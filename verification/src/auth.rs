//! API keys: the fast fingerprint used to look a key up, the slow salted hash
//! used to verify it, and the generation of fresh key material.

use vstd::prelude::*;
use vstd::utf8::encode_utf8;
use crate::digest::{hex_encode, hex_string, sha256, sha256_digest};
use crate::models::{ApiKey, ErrorResponse};
use argon2::PasswordHasher;
use argon2::PasswordVerifier;
use rand::Rng;

verus! {

/// Characters in a fingerprint.
pub const FINGERPRINT_LEN: usize = 16;

/// Characters in a generated raw key or webhook secret.
pub const GENERATED_LEN: usize = 32;

/// Why a slow hash could not be produced or read.
#[derive(Debug, Clone, Copy, PartialEq, Eq, Structural)]
pub enum CryptoError {
    /// The hashing function refused to hash the key.
    HashingFailed,
    /// The stored hash is not a well-formed hash string.
    MalformedHash,
}

/// What is stored and handed out when a key is issued. The raw key goes to
/// the caller once; only the fingerprint and the hash are kept.
#[derive(Debug, Clone)]
pub struct IssuedKey {
    pub raw: String,
    pub fingerprint: String,
    pub hash: String,
}

impl IssuedKey {
    /// The record that is stored for the key: its fingerprint and hash, and
    /// no last use yet. The raw key is not in it.
    pub fn stored_record(&self, id: u128, account_id: u128, now: i64) -> (r: ApiKey)
        ensures
            r.id == id,
            r.account_id == account_id,
            r.key_fingerprint@ == self.fingerprint@,
            r.key_hash@ == self.hash@,
            r.created_at == now,
            r.last_used is None,
    {
        ApiKey {
            id,
            account_id,
            key_fingerprint: self.fingerprint.clone(),
            key_hash: self.hash.clone(),
            created_at: now,
            last_used: None,
        }
    }
}

/// The sentence that goes with a hashing error.
pub open spec fn crypto_message_of(e: CryptoError) -> Seq<char> {
    match e {
        CryptoError::HashingFailed => "Failed to hash API key"@,
        CryptoError::MalformedHash => "Invalid key hash format"@,
    }
}

impl CryptoError {
    /// The body of the error response; the code is `crypto_error` either
    /// way.
    pub fn to_response(&self) -> (r: ErrorResponse)
        ensures
            r.code@ == "crypto_error"@,
            r.message@ == crypto_message_of(*self),
    {
        match self {
            CryptoError::HashingFailed => ErrorResponse::new("crypto_error", "Failed to hash API key"),
            CryptoError::MalformedHash => ErrorResponse::new(
                "crypto_error",
                "Invalid key hash format",
            ),
        }
    }
}

/// `argon2::password_hash::Error`, carried through unread.
#[verifier::external_type_specification]
#[verifier::external_body]
pub struct ExPasswordHashError(argon2::password_hash::Error);

/// `argon2::password_hash::SaltString`, carried through unread.
#[verifier::external_type_specification]
#[verifier::external_body]
pub struct ExSaltString(argon2::password_hash::SaltString);

/// Whether a stored hash parses as a PHC hash string.
pub uninterp spec fn phc_parses(stored: Seq<char>) -> bool;

/// Whether `Argon2::default().verify_password` accepts `key` for the hash
/// that `stored` parses to: the hash is an Argon2 hash, and Argon2 run on
/// `key` with the parameters and salt it records gives the output it
/// records.
pub uninterp spec fn argon2_matches(key: Seq<u8>, stored: Seq<char>) -> bool;

/// The fingerprint of a raw key: the first sixteen hexadecimal digits of the
/// SHA-256 digest of its UTF-8 bytes.
pub open spec fn fingerprint_of(key: Seq<char>) -> Seq<char> {
    hex_string(sha256(encode_utf8(key))).subrange(0, 16)
}

/// What verification of `key` against `stored` yields.
pub open spec fn verify_key_spec(key: Seq<char>, stored: Seq<char>) -> Result<bool, CryptoError> {
    if phc_parses(stored) {
        Ok(argon2_matches(encode_utf8(key), stored))
    } else {
        Err(CryptoError::MalformedHash)
    }
}

/// A character that a generated key may hold.
pub open spec fn is_alphanumeric(c: char) -> bool {
    ('0' <= c && c <= '9') || ('a' <= c && c <= 'z') || ('A' <= c && c <= 'Z')
}

/// `SaltString::generate` on the operating system's random source. Nothing
/// is claimed of the salt.
#[verifier::external_body]
fn fresh_salt() -> (salt: argon2::password_hash::SaltString) {
    argon2::password_hash::SaltString::generate(&mut rand::rngs::OsRng)
}

/// `Argon2::default().hash_password`, the hash written out as a PHC string.
/// Where it succeeds, the string parses and Argon2 reproduces its output from
/// `key`: verification recomputes the hash with the algorithm, version,
/// parameters and salt that the string records.
#[verifier::external_body]
fn argon2_hash(key: &[u8], salt: &argon2::password_hash::SaltString) -> (r: Result<
    String,
    argon2::password_hash::Error,
>)
    ensures
        r matches Ok(text) ==> phc_parses(text@) && argon2_matches(key@, text@),
{
    match argon2::Argon2::default().hash_password(key, salt) {
        Ok(hash) => Ok(hash.to_string()),
        Err(e) => Err(e),
    }
}

/// `PasswordHash::new` on the stored text, then
/// `Argon2::default().verify_password`. The call fails exactly where the text
/// does not parse; otherwise it tells whether Argon2 accepted the key.
#[verifier::external_body]
fn argon2_verify(key: &[u8], stored: &str) -> (r: Result<bool, argon2::password_hash::Error>)
    ensures
        r is Ok <==> phc_parses(stored@),
        r matches Ok(accepted) ==> accepted == argon2_matches(key@, stored@),
{
    match argon2::password_hash::PasswordHash::new(stored) {
        Ok(parsed) => Ok(argon2::Argon2::default().verify_password(key, &parsed).is_ok()),
        Err(e) => Err(e),
    }
}

/// `rand::thread_rng().sample_iter(Alphanumeric)`, the first `len` samples
/// as characters: each is an ASCII letter or digit.
#[verifier::external_body]
fn random_alphanumeric(len: usize) -> (text: String)
    ensures
        text@.len() == len,
        forall|i: int| 0 <= i < len ==> is_alphanumeric(#[trigger] text@[i]),
{
    rand::thread_rng().sample_iter(&rand::distributions::Alphanumeric).take(len).map(
        char::from,
    ).collect()
}

/// The fingerprint of a raw key, used as its lookup index.
pub fn compute_fingerprint(key: &str) -> (fp: String)
    ensures
        fp@ == fingerprint_of(key@),
        fp@.len() == FINGERPRINT_LEN,
{
    let digest = sha256_digest(key.as_bytes());
    let hex = hex_encode(digest.as_slice());
    let head = hex.as_str().substring_char(0, FINGERPRINT_LEN);
    head.to_owned()
}

/// What the hashing call's outcome becomes: the hash string, or
/// `HashingFailed` whatever the hashing function reported.
pub fn stored_hash_from(outcome: Result<String, argon2::password_hash::Error>) -> (r: Result<
    String,
    CryptoError,
>)
    ensures
        outcome matches Ok(text) ==> r == Ok::<String, CryptoError>(text),
        outcome is Err ==> r == Err::<String, CryptoError>(CryptoError::HashingFailed),
{
    match outcome {
        Ok(text) => Ok(text),
        Err(_) => Err(CryptoError::HashingFailed),
    }
}

/// What the verification call's outcome becomes: the verdict, or
/// `MalformedHash` where the stored hash did not parse.
pub fn verdict_from(outcome: Result<bool, argon2::password_hash::Error>) -> (r: Result<
    bool,
    CryptoError,
>)
    ensures
        outcome matches Ok(accepted) ==> r == Ok::<bool, CryptoError>(accepted),
        outcome is Err ==> r == Err::<bool, CryptoError>(CryptoError::MalformedHash),
{
    match outcome {
        Ok(accepted) => Ok(accepted),
        Err(_) => Err(CryptoError::MalformedHash),
    }
}

/// Hashes a raw key under a fresh random salt. Every hash that comes back
/// verifies against the key it was made from.
pub fn hash_key(key: &str) -> (r: Result<String, CryptoError>)
    ensures
        r matches Ok(stored) ==> verify_key_spec(key@, stored@) == Ok::<bool, CryptoError>(true),
        r matches Err(e) ==> e == CryptoError::HashingFailed,
{
    let salt = fresh_salt();
    stored_hash_from(argon2_hash(key.as_bytes(), &salt))
}

/// Verifies a raw key against a stored hash. A mismatch is `Ok(false)`; only
/// a stored hash that does not parse is an error.
pub fn verify_key(key: &str, stored_hash: &str) -> (r: Result<bool, CryptoError>)
    ensures
        r == verify_key_spec(key@, stored_hash@),
{
    verdict_from(argon2_verify(key.as_bytes(), stored_hash))
}

/// A fresh raw API key: thirty-two random letters and digits.
pub fn generate_api_key() -> (key: String)
    ensures
        key@.len() == GENERATED_LEN,
        forall|i: int| 0 <= i < key@.len() ==> is_alphanumeric(#[trigger] key@[i]),
{
    random_alphanumeric(GENERATED_LEN)
}

/// A fresh webhook secret: thirty-two random letters and digits.
pub fn generate_webhook_secret() -> (secret: String)
    ensures
        secret@.len() == GENERATED_LEN,
        forall|i: int| 0 <= i < secret@.len() ==> is_alphanumeric(#[trigger] secret@[i]),
{
    random_alphanumeric(GENERATED_LEN)
}

/// The fingerprint and slow hash that go with a raw key. The fingerprint is
/// that of the key, and the hash verifies against it.
pub fn key_material(raw: String) -> (r: Result<IssuedKey, CryptoError>)
    ensures
        r matches Ok(issued) ==> issued.raw@ == raw@ && issued.fingerprint@ == fingerprint_of(raw@)
            && verify_key_spec(raw@, issued.hash@) == Ok::<bool, CryptoError>(true),
        r matches Err(e) ==> e == CryptoError::HashingFailed,
{
    let fingerprint = compute_fingerprint(raw.as_str());
    match hash_key(raw.as_str()) {
        Ok(hash) => Ok(IssuedKey { raw, fingerprint, hash }),
        Err(e) => Err(e),
    }
}

/// Issues a new API key: a fresh raw key with its fingerprint and hash.
pub fn create_api_key() -> (r: Result<IssuedKey, CryptoError>)
    ensures
        r matches Ok(issued) ==> {
            &&& issued.raw@.len() == GENERATED_LEN
            &&& forall|i: int| 0 <= i < issued.raw@.len() ==> is_alphanumeric(#[trigger] issued.raw@[i])
            &&& issued.fingerprint@ == fingerprint_of(issued.raw@)
            &&& verify_key_spec(issued.raw@, issued.hash@) == Ok::<bool, CryptoError>(true)
        },
        r matches Err(e) ==> e == CryptoError::HashingFailed,
{
    key_material(generate_api_key())
}

/// The fingerprint depends on the key alone: equal keys have equal
/// fingerprints.
pub proof fn fingerprint_deterministic(a: Seq<char>, b: Seq<char>)
    requires
        a == b,
    ensures
        fingerprint_of(a) == fingerprint_of(b),
{
}

} // verus!
