//! Request authentication: from a presented key to an authenticated
//! principal or a rejection. Storage is asked by the caller; this module decides
//! what each answer means.

use vstd::prelude::*;
use crate::auth::{compute_fingerprint, fingerprint_of, verify_key, verify_key_spec, CryptoError};
use crate::models::ErrorResponse;
use crate::rate_limit::{window_after, window_of, RateStore};

verus! {

/// The request header that carries the raw API key.
pub const API_KEY_HEADER: &'static str = "x-api-key";

/// Who a request acts for.
#[derive(Debug, Clone, Copy, PartialEq, Eq, Structural)]
pub struct Principal {
    pub account_id: u128,
    pub key_id: u128,
}

/// Why a request is turned away.
#[derive(Debug, Clone, Copy, PartialEq, Eq, Structural)]
pub enum AuthRejection {
    /// No key was presented.
    MissingCredential,
    /// Storage could not be asked for the key.
    LookupFailed,
    /// No key has this fingerprint, or the key does not match the stored
    /// hash. The two are not told apart.
    InvalidKey,
    /// The stored hash is malformed.
    CorruptHash,
    /// The key has used up its requests for this window.
    RateLimited,
}

/// The stored key that a fingerprint led to.
#[derive(Debug, Clone)]
pub struct KeyRecord {
    pub id: u128,
    pub account_id: u128,
    pub key_hash: String,
}

/// What storage answered when asked for a fingerprint.
#[derive(Debug, Clone)]
pub enum KeyLookup {
    Failed,
    NotFound,
    Found(KeyRecord),
}

/// The HTTP status of a rejection.
pub open spec fn rejection_status(r: AuthRejection) -> u16 {
    match r {
        AuthRejection::MissingCredential => 401,
        AuthRejection::LookupFailed => 500,
        AuthRejection::InvalidKey => 401,
        AuthRejection::CorruptHash => 500,
        AuthRejection::RateLimited => 429,
    }
}

/// The machine-readable code of a rejection.
pub open spec fn rejection_code(r: AuthRejection) -> Seq<char> {
    match r {
        AuthRejection::MissingCredential => "missing_credential"@,
        AuthRejection::LookupFailed => "database_error"@,
        AuthRejection::InvalidKey => "unauthorized"@,
        AuthRejection::CorruptHash => "crypto_error"@,
        AuthRejection::RateLimited => "rate_limited"@,
    }
}

/// The sentence that goes with a rejection.
pub open spec fn rejection_message(r: AuthRejection) -> Seq<char> {
    match r {
        AuthRejection::MissingCredential => "Missing x-api-key header"@,
        AuthRejection::LookupFailed => "Failed to validate API key"@,
        AuthRejection::InvalidKey => "Invalid API key"@,
        AuthRejection::CorruptHash => "Invalid key hash format"@,
        AuthRejection::RateLimited => "Too many requests"@,
    }
}

/// What a verdict on the key means for the record's owner: a match
/// authenticates, a mismatch is an invalid key, a malformed stored hash is
/// an integrity error.
pub open spec fn judged(id: u128, account_id: u128, verdict: Result<bool, CryptoError>) -> Result<
    Principal,
    AuthRejection,
> {
    match verdict {
        Ok(true) => Ok(Principal { account_id, key_id: id }),
        Ok(false) => Err(AuthRejection::InvalidKey),
        Err(_) => Err(AuthRejection::CorruptHash),
    }
}

/// The decision on the key itself.
pub open spec fn credentials_checked(key: Seq<char>, lookup: KeyLookup) -> Result<
    Principal,
    AuthRejection,
> {
    match lookup {
        KeyLookup::Failed => Err(AuthRejection::LookupFailed),
        KeyLookup::NotFound => Err(AuthRejection::InvalidKey),
        KeyLookup::Found(record) => judged(
            record.id,
            record.account_id,
            verify_key_spec(key, record.key_hash@),
        ),
    }
}

impl AuthRejection {
    pub fn status(&self) -> (r: u16)
        ensures
            r == rejection_status(*self),
    {
        match self {
            AuthRejection::MissingCredential => 401,
            AuthRejection::LookupFailed => 500,
            AuthRejection::InvalidKey => 401,
            AuthRejection::CorruptHash => 500,
            AuthRejection::RateLimited => 429,
        }
    }

    /// The body of the error response.
    pub fn to_response(&self) -> (r: ErrorResponse)
        ensures
            r.code@ == rejection_code(*self),
            r.message@ == rejection_message(*self),
    {
        match self {
            AuthRejection::MissingCredential => ErrorResponse::new(
                "missing_credential",
                "Missing x-api-key header",
            ),
            AuthRejection::LookupFailed => ErrorResponse::new(
                "database_error",
                "Failed to validate API key",
            ),
            AuthRejection::InvalidKey => ErrorResponse::new("unauthorized", "Invalid API key"),
            AuthRejection::CorruptHash => ErrorResponse::new(
                "crypto_error",
                "Invalid key hash format",
            ),
            AuthRejection::RateLimited => ErrorResponse::new("rate_limited", "Too many requests"),
        }
    }
}

/// A rejection that speaks of the credential itself, not of the service's
/// own state.
pub open spec fn concerns_credential(r: AuthRejection) -> bool {
    r is MissingCredential || r is InvalidKey || r is RateLimited
}

/// A missing key, an invalid key and a key over its limit are told apart by
/// their codes.
pub proof fn credential_rejections_have_distinct_codes(a: AuthRejection, b: AuthRejection)
    requires
        concerns_credential(a),
        concerns_credential(b),
        a != b,
    ensures
        rejection_code(a) != rejection_code(b),
{
    reveal_strlit("missing_credential");
    reveal_strlit("unauthorized");
    reveal_strlit("rate_limited");
    assert("unauthorized"@[0] == 'u');
    assert("rate_limited"@[0] == 'r');
}

/// The first step: a request without a key is turned away;
/// otherwise the key's fingerprint is what storage is asked for.
pub fn presented_fingerprint(presented: Option<&str>) -> (r: Result<String, AuthRejection>)
    ensures
        presented is None ==> r == Err::<String, AuthRejection>(AuthRejection::MissingCredential),
        presented matches Some(key) ==> r is Ok && r.unwrap()@ == fingerprint_of(key@),
{
    match presented {
        None => Err(AuthRejection::MissingCredential),
        Some(key) => Ok(compute_fingerprint(key)),
    }
}

/// Turns a verdict on the key into the decision on the request.
pub fn judge(id: u128, account_id: u128, verdict: Result<bool, CryptoError>) -> (r: Result<
    Principal,
    AuthRejection,
>)
    ensures
        r == judged(id, account_id, verdict),
{
    match verdict {
        Ok(true) => Ok(Principal { account_id, key_id: id }),
        Ok(false) => Err(AuthRejection::InvalidKey),
        Err(_) => Err(AuthRejection::CorruptHash),
    }
}

/// The second step: what storage answered decides, and where it found a
/// record, the key is verified against the stored hash.
pub fn check_credentials(key: &str, lookup: &KeyLookup) -> (r: Result<Principal, AuthRejection>)
    ensures
        r == credentials_checked(key@, *lookup),
{
    match lookup {
        KeyLookup::Failed => Err(AuthRejection::LookupFailed),
        KeyLookup::NotFound => Err(AuthRejection::InvalidKey),
        KeyLookup::Found(record) => judge(
            record.id,
            record.account_id,
            verify_key(key, record.key_hash.as_str()),
        ),
    }
}

/// The last step: counts the request against the key's window and turns it
/// away where the window is full.
pub fn enforce_rate_limit(
    store: &mut RateStore,
    fingerprint: &str,
    limit_per_min: u64,
    now_ms: u64,
) -> (r: Result<(), AuthRejection>)
    ensures
        r is Ok <==> window_after(window_of(old(store)@, fingerprint@), limit_per_min, now_ms).1,
        r matches Err(e) ==> e == AuthRejection::RateLimited,
        final(store)@ == old(store)@.insert(
            fingerprint@,
            window_after(window_of(old(store)@, fingerprint@), limit_per_min, now_ms).0,
        ),
{
    if crate::rate_limit::allow(store, fingerprint, limit_per_min, now_ms) {
        Ok(())
    } else {
        Err(AuthRejection::RateLimited)
    }
}

/// Authentication from the key check on: the key is verified first, and only a
/// verified key is counted against its window. A request that fails the key
/// check leaves the counters alone.
pub fn auth_middleware(
    store: &mut RateStore,
    key: &str,
    lookup: &KeyLookup,
    limit_per_min: u64,
    now_ms: u64,
) -> (r: Result<Principal, AuthRejection>)
    ensures
        match credentials_checked(key@, *lookup) {
            Err(e) => r == Err::<Principal, AuthRejection>(e) && final(store)@ == old(store)@,
            Ok(principal) => {
                let after = window_after(
                    window_of(old(store)@, fingerprint_of(key@)),
                    limit_per_min,
                    now_ms,
                );
                &&& final(store)@ == old(store)@.insert(fingerprint_of(key@), after.0)
                &&& r == if after.1 {
                    Ok::<Principal, AuthRejection>(principal)
                } else {
                    Err::<Principal, AuthRejection>(AuthRejection::RateLimited)
                }
            },
        },
{
    let principal = match check_credentials(key, lookup) {
        Ok(principal) => principal,
        Err(e) => {
            return Err(e);
        },
    };
    let fingerprint = compute_fingerprint(key);
    match enforce_rate_limit(store, fingerprint.as_str(), limit_per_min, now_ms) {
        Ok(()) => Ok(principal),
        Err(e) => Err(e),
    }
}

} // verus!
