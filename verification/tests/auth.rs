use transaction_service::auth::{
    compute_fingerprint, generate_api_key, generate_webhook_secret, hash_key, create_api_key,
    key_material, stored_hash_from, verdict_from, verify_key, CryptoError, FINGERPRINT_LEN,
    GENERATED_LEN,
};

#[test]
fn fingerprint_length() {
    let key = "mysecretkey123";
    let fp = compute_fingerprint(key);
    assert_eq!(fp.len(), FINGERPRINT_LEN);
}

#[test]
fn hash_and_verify() {
    let key = "another-secret-456";
    let hashed = hash_key(key).expect("hash should succeed");
    let ok = verify_key(key, &hashed).expect("verify should run");
    assert!(ok);
    let bad = verify_key("wrong", &hashed).expect("verify should run");
    assert!(!bad);
}

#[test]
fn fingerprint_is_prefix_of_sha256_hex() {
    assert_eq!(compute_fingerprint("mysecretkey123"), "910354f9d41ee6b7");
    assert_eq!(compute_fingerprint(""), "e3b0c44298fc1c14");
}

#[test]
fn fingerprint_is_deterministic() {
    let a = compute_fingerprint("same key");
    let b = compute_fingerprint("same key");
    assert_eq!(a, b);
    assert_ne!(a, compute_fingerprint("other key"));
}

#[test]
fn fingerprint_differs_from_its_input() {
    let key = "0123456789abcdef";
    assert_ne!(compute_fingerprint(key), key);
}

#[test]
fn hash_is_salted() {
    let first = hash_key("k").expect("hash should succeed");
    let second = hash_key("k").expect("hash should succeed");
    assert_ne!(first, second);
    assert!(first.starts_with("$argon2id$"));
    assert_ne!(first, "k");
}

#[test]
fn verify_rejects_hash_of_other_key() {
    let hashed = hash_key("other").expect("hash should succeed");
    assert_eq!(verify_key("mine", &hashed), Ok(false));
}

#[test]
fn verify_reports_malformed_hash() {
    assert_eq!(verify_key("key", "not a hash"), Err(CryptoError::MalformedHash));
    assert_eq!(verify_key("key", ""), Err(CryptoError::MalformedHash));
}

#[test]
fn generated_keys_are_alphanumeric() {
    let key = generate_api_key();
    assert_eq!(key.chars().count(), GENERATED_LEN);
    assert!(key.chars().all(|c| c.is_ascii_alphanumeric()));
    let secret = generate_webhook_secret();
    assert_eq!(secret.chars().count(), 32);
    assert!(secret.chars().all(|c| c.is_ascii_alphanumeric()));
    assert_ne!(key, secret);
}

#[test]
fn key_material_matches_its_key() {
    let issued = key_material("raw-key".to_string()).expect("hash should succeed");
    assert_eq!(issued.raw, "raw-key");
    assert_eq!(issued.fingerprint, compute_fingerprint("raw-key"));
    assert_eq!(verify_key("raw-key", &issued.hash), Ok(true));
    assert_eq!(verify_key("raw-kez", &issued.hash), Ok(false));
}

#[test]
fn issued_key_verifies() {
    let issued = create_api_key().expect("hash should succeed");
    assert_eq!(issued.raw.len(), 32);
    assert_eq!(issued.fingerprint, compute_fingerprint(&issued.raw));
    assert_eq!(verify_key(&issued.raw, &issued.hash), Ok(true));
}

#[test]
fn crypto_error_responses() {
    let hashing = CryptoError::HashingFailed.to_response();
    assert_eq!(hashing.code, "crypto_error");
    assert_eq!(hashing.message, "Failed to hash API key");
    let malformed = CryptoError::MalformedHash.to_response();
    assert_eq!(malformed.code, "crypto_error");
    assert_eq!(malformed.message, "Invalid key hash format");
}

#[test]
fn stored_record_holds_no_raw_key() {
    let issued = create_api_key().expect("hash should succeed");
    let record = issued.stored_record(4, 5, 6);
    assert_eq!(record.id, 4);
    assert_eq!(record.account_id, 5);
    assert_eq!(record.key_fingerprint, issued.fingerprint);
    assert_eq!(record.key_hash, issued.hash);
    assert_eq!(record.created_at, 6);
    assert_eq!(record.last_used, None);
    assert_ne!(record.key_fingerprint, issued.raw);
    assert_ne!(record.key_hash, issued.raw);
}

#[test]
fn hashing_outcomes_are_mapped() {
    assert_eq!(stored_hash_from(Ok("$argon2id$x".to_string())), Ok("$argon2id$x".to_string()));
    assert_eq!(
        stored_hash_from(Err(argon2::password_hash::Error::Password)),
        Err(CryptoError::HashingFailed)
    );
    assert_eq!(verdict_from(Ok(true)), Ok(true));
    assert_eq!(verdict_from(Ok(false)), Ok(false));
    assert_eq!(
        verdict_from(Err(argon2::password_hash::Error::PhcStringField)),
        Err(CryptoError::MalformedHash)
    );
}
