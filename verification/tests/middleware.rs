use transaction_service::auth::{compute_fingerprint, create_api_key, CryptoError};
use transaction_service::middleware::{
    auth_middleware, check_credentials, enforce_rate_limit, judge, presented_fingerprint,
    AuthRejection, KeyLookup, KeyRecord, Principal,
};
use transaction_service::rate_limit::{RateStore, Window};

#[test]
fn missing_key_is_turned_away() {
    assert_eq!(presented_fingerprint(None), Err(AuthRejection::MissingCredential));
    assert_eq!(presented_fingerprint(Some("mysecretkey123")), Ok("910354f9d41ee6b7".to_string()));
}

#[test]
fn verdicts_are_judged() {
    assert_eq!(judge(1, 2, Ok(true)), Ok(Principal { account_id: 2, key_id: 1 }));
    assert_eq!(judge(1, 2, Ok(false)), Err(AuthRejection::InvalidKey));
    assert_eq!(judge(1, 2, Err(CryptoError::MalformedHash)), Err(AuthRejection::CorruptHash));
}

#[test]
fn issued_key_grants_access_and_a_mutated_key_does_not() {
    let issued = create_api_key().expect("hash should succeed");
    let found = KeyLookup::Found(KeyRecord { id: 11, account_id: 22, key_hash: issued.hash.clone() });
    let mut store = RateStore::new();
    assert_eq!(
        auth_middleware(&mut store, &issued.raw, &found, 60, 0),
        Ok(Principal { account_id: 22, key_id: 11 })
    );
    assert_eq!(
        store.window(&compute_fingerprint(&issued.raw)),
        Some(Window { start: 0, count: 1 })
    );

    let mut mutated = issued.raw.clone();
    mutated.push('x');
    assert_eq!(
        auth_middleware(&mut store, &mutated, &found, 60, 0),
        Err(AuthRejection::InvalidKey)
    );
    assert_eq!(
        auth_middleware(&mut store, &mutated, &KeyLookup::NotFound, 60, 0),
        Err(AuthRejection::InvalidKey)
    );
    assert_eq!(store.window(&compute_fingerprint(&mutated)), None);
}

#[test]
fn lookup_answers_decide() {
    assert_eq!(check_credentials("k", &KeyLookup::Failed), Err(AuthRejection::LookupFailed));
    assert_eq!(check_credentials("k", &KeyLookup::NotFound), Err(AuthRejection::InvalidKey));
    let corrupt = KeyLookup::Found(KeyRecord { id: 1, account_id: 2, key_hash: "garbage".to_string() });
    assert_eq!(check_credentials("k", &corrupt), Err(AuthRejection::CorruptHash));
}

#[test]
fn verified_key_is_rate_limited() {
    let issued = create_api_key().expect("hash should succeed");
    let found = KeyLookup::Found(KeyRecord { id: 1, account_id: 2, key_hash: issued.hash.clone() });
    let mut store = RateStore::new();
    assert!(auth_middleware(&mut store, &issued.raw, &found, 1, 0).is_ok());
    assert_eq!(
        auth_middleware(&mut store, &issued.raw, &found, 1, 10),
        Err(AuthRejection::RateLimited)
    );
    assert!(auth_middleware(&mut store, &issued.raw, &found, 1, 60_001).is_ok());
}

#[test]
fn rate_limit_step() {
    let mut store = RateStore::new();
    assert_eq!(enforce_rate_limit(&mut store, "fp", 1, 0), Ok(()));
    assert_eq!(enforce_rate_limit(&mut store, "fp", 1, 1), Err(AuthRejection::RateLimited));
}

#[test]
fn rejection_responses() {
    let cases: Vec<(AuthRejection, u16, &str, &str)> = vec![
        (AuthRejection::MissingCredential, 401, "missing_credential", "Missing x-api-key header"),
        (AuthRejection::LookupFailed, 500, "database_error", "Failed to validate API key"),
        (AuthRejection::InvalidKey, 401, "unauthorized", "Invalid API key"),
        (AuthRejection::CorruptHash, 500, "crypto_error", "Invalid key hash format"),
        (AuthRejection::RateLimited, 429, "rate_limited", "Too many requests"),
    ];
    for (rejection, status, code, message) in cases {
        assert_eq!(rejection.status(), status);
        let body = rejection.to_response();
        assert_eq!(body.code, code);
        assert_eq!(body.message, message);
    }
}
