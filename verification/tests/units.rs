//! Single-step behaviors: error mapping, byte formatting, sealing, and the
//! failure paths of each operation.

use chacha20poly1305::aead::{Aead, NewAead};
use chacha20poly1305::{ChaCha20Poly1305, Key, Nonce};

use keypost::auth;
use keypost::auth::RegisterFinishOutcome;
use keypost::cache::EphemeralStateCache;
use keypost::crypto;
use keypost::errors::ApiError;
use keypost::locker;
use keypost::models::{
    DeleteOutcome, Locker, LockerFetch, StoreLockerOutcome, StoreUserOutcome, User, UserFetch,
};
use keypost::opaque::{DefaultCipherSuite, ServerIdentity};
use keypost::requests::{
    LoginFinish, LoginStart, LoginVerify, OpenLockerFinish, OpenLockerStart, RegisterFinish,
    RegisterLockerStart, RegisterStart,
};

fn generate_server_identity() -> ServerIdentity {
    let setup =
        opaque_ke::ServerSetup::<DefaultCipherSuite>::new(&mut opaque_ke::rand::rngs::OsRng);
    ServerIdentity { setup: setup.serialize().to_vec() }
}

fn sample_user(psswd_file: &str, deleted: bool) -> User {
    User {
        id: 1,
        email: "u@example.com".to_string(),
        psswd_file: psswd_file.to_string(),
        deleted,
        inserted_at: 0,
        updated_at: 0,
    }
}

fn sample_locker(psswd_file: &str, ciphertext: &str) -> Locker {
    Locker {
        id: 1,
        email: "u@example.com".to_string(),
        locker_id: "lk".to_string(),
        psswd_file: psswd_file.to_string(),
        ciphertext: ciphertext.to_string(),
        inserted_at: 0,
        updated_at: 0,
    }
}

#[test]
fn status_codes_follow_the_error_taxonomy() {
    assert_eq!(ApiError::LoginError("x".to_string()).status_code(), 400);
    assert_eq!(ApiError::NotAuthenticated.status_code(), 401);
    assert_eq!(ApiError::InvalidConfirmationKey("k".to_string()).status_code(), 400);
    assert_eq!(ApiError::InvalidRequest { expected: "e".to_string() }.status_code(), 400);
    assert_eq!(ApiError::BadRequest.status_code(), 400);
    assert_eq!(ApiError::BadRequestDecode.status_code(), 400);
    assert_eq!(ApiError::BadRequestProtocol.status_code(), 400);
    assert_eq!(ApiError::BadConfirmationKeyOrWrongEmail.status_code(), 400);
    assert_eq!(ApiError::LockerNotFound("l".to_string()).status_code(), 404);
    assert_eq!(ApiError::UnknownLockerError("l".to_string()).status_code(), 500);
    assert_eq!(ApiError::ServerError.status_code(), 500);
    assert_eq!(ApiError::UnknownError.status_code(), 500);
}

#[test]
fn u32_be_bytes_are_most_significant_first() {
    assert_eq!(crypto::u32_to_be_bytes(0x12345678), vec![0x12, 0x34, 0x56, 0x78]);
    assert_eq!(crypto::u32_to_be_bytes(0), vec![0, 0, 0, 0]);
    assert_eq!(crypto::u32_to_be_bytes(u32::MAX), vec![0xFF, 0xFF, 0xFF, 0xFF]);
    assert_eq!(crypto::u32_to_be_bytes(7), 7u32.to_be_bytes().to_vec());
}

#[test]
fn sealing_with_a_fixed_nonce_is_deterministic_and_opens() {
    let key = vec![0x42u8; 32];
    let plaintext = b"thirty-two bytes of anything....".to_vec();
    let first = crypto::encrypt_bytes_with_u32_nonce(&9, &key, &plaintext);
    let second = crypto::encrypt_bytes_with_u32_nonce(&9, &key, &plaintext);
    assert_eq!(first, second);
    assert_eq!(first.len(), plaintext.len() + 16);
    let other_nonce = crypto::encrypt_bytes_with_u32_nonce(&10, &key, &plaintext);
    assert_ne!(first, other_nonce);

    let cipher = ChaCha20Poly1305::new(Key::from_slice(&key));
    let mut nonce_bytes = [0u8; 12];
    nonce_bytes[..4].copy_from_slice(&9u32.to_be_bytes());
    let opened = cipher
        .decrypt(Nonce::from_slice(&nonce_bytes), first.as_slice())
        .unwrap();
    assert_eq!(opened, plaintext);
}

#[test]
fn locker_sealing_prefixes_its_nonce_and_opens() {
    let key = vec![0x07u8; 32];
    let plaintext = b"locker contents".to_vec();
    let blob = crypto::encrypt_locker(&key, &plaintext);
    assert_eq!(blob.len(), plaintext.len() + 28);
    let cipher = ChaCha20Poly1305::new(Key::from_slice(&key));
    let opened = cipher
        .decrypt(Nonce::from_slice(&blob[..12]), &blob[12..])
        .unwrap();
    assert_eq!(opened, plaintext);
}

#[test]
fn random_material_has_the_stated_shape() {
    assert_eq!(crypto::rand_bytes().len(), 32);
    let _nonce: u32 = crypto::create_nonce();
}

#[test]
fn register_finish_rejects_missing_and_mismatched_state() {
    let mut cache = EphemeralStateCache::new();

    // No pending challenge under the nonce.
    let absent = auth::register_finish(
        &mut cache,
        &RegisterFinish {
            id: 3,
            e: "u@example.com".to_string(),
            i: base64::encode(b"upload"),
            v: base64::encode(b"verifier"),
        },
    );
    assert!(matches!(absent, Err(ApiError::BadRequest)));

    // A verifier that is not base64 at all.
    cache.insert_str(3, "cached-challenge");
    let undecodable = auth::register_finish(
        &mut cache,
        &RegisterFinish {
            id: 3,
            e: "u@example.com".to_string(),
            i: base64::encode(b"upload"),
            v: "!!!not-base64!!!".to_string(),
        },
    );
    assert!(matches!(undecodable, Err(ApiError::BadRequestDecode)));

    // A verifier whose recomputed challenge does not match the cached one.
    let mismatch = auth::register_finish(
        &mut cache,
        &RegisterFinish {
            id: 3,
            e: "u@example.com".to_string(),
            i: base64::encode(b"upload"),
            v: base64::encode(b"some-other-verifier"),
        },
    );
    assert!(matches!(mismatch, Ok(RegisterFinishOutcome::ChallengeMismatch)));

    // A matching challenge but a malformed upload: rejected by the PAKE.
    let verifier = pkce::code_verifier(43);
    let challenge = pkce::code_challenge(&verifier);
    cache.insert_str(4, &challenge);
    let bad_upload = auth::register_finish(
        &mut cache,
        &RegisterFinish {
            id: 4,
            e: "u@example.com".to_string(),
            i: base64::encode(b"not a registration upload"),
            v: base64::encode(&verifier),
        },
    );
    assert!(matches!(bad_upload, Err(ApiError::BadRequestProtocol)));
}

#[test]
fn register_finish_store_outcomes_map_to_the_taxonomy() {
    let ok = auth::register_finish_stored(11, &StoreUserOutcome::Created).unwrap();
    assert_eq!(ok.id, 11);
    assert_eq!(ok.output, "ok");
    assert!(matches!(
        auth::register_finish_stored(11, &StoreUserOutcome::DuplicateEmail),
        Err(ApiError::BadConfirmationKeyOrWrongEmail)
    ));
    assert!(matches!(
        auth::register_finish_stored(11, &StoreUserOutcome::Failure),
        Err(ApiError::UnknownError)
    ));
}

#[test]
fn login_start_rejects_unusable_users_and_bad_encodings() {
    let identity = generate_server_identity();
    let mut cache = EphemeralStateCache::new();
    let payload = LoginStart { e: "u@example.com".to_string(), i: base64::encode(b"req") };

    let missing = auth::login_start(&identity, &mut cache, &payload, &UserFetch::Missing);
    assert!(matches!(missing, Err(ApiError::LoginError(_))));
    let failed = auth::login_start(&identity, &mut cache, &payload, &UserFetch::Failure);
    assert!(matches!(failed, Err(ApiError::LoginError(_))));
    let deleted = auth::login_start(
        &identity,
        &mut cache,
        &payload,
        &UserFetch::Found(sample_user(&base64::encode(b"pf"), true)),
    );
    assert!(matches!(deleted, Err(ApiError::LoginError(_))));

    // A stored password file that is not base64.
    let bad_store = auth::login_start(
        &identity,
        &mut cache,
        &payload,
        &UserFetch::Found(sample_user("*** corrupt ***", false)),
    );
    assert!(matches!(bad_store, Err(ApiError::BadRequestProtocol)));

    // A client message that is not base64.
    let bad_message = auth::login_start(
        &identity,
        &mut cache,
        &LoginStart { e: "u@example.com".to_string(), i: "%%%".to_string() },
        &UserFetch::Found(sample_user(&base64::encode(b"pf"), false)),
    );
    assert!(matches!(bad_message, Err(ApiError::BadRequestDecode)));

    // A decodable password file that is not a PAKE registration record.
    let bad_record = auth::login_start(
        &identity,
        &mut cache,
        &payload,
        &UserFetch::Found(sample_user(&base64::encode(b"pf"), false)),
    );
    assert!(matches!(bad_record, Err(ApiError::BadRequestProtocol)));
}

#[test]
fn login_finish_rejects_bad_encodings() {
    let mut cache = EphemeralStateCache::new();
    cache.insert(6, b"some cached state".to_vec());
    let outcome = auth::login_finish(
        &mut cache,
        &LoginFinish { id: 6, e: "u@example.com".to_string(), i: "@@@".to_string() },
    );
    assert!(matches!(outcome, Err(ApiError::BadRequestDecode)));
    // The finish attempt burned the nonce even though decoding failed.
    assert_eq!(cache.get(&6), None);
}

#[test]
fn login_verify_rejects_bad_encodings_and_short_keys() {
    let mut cache = EphemeralStateCache::new();
    let undecodable = auth::login_verify(
        &mut cache,
        &LoginVerify { id: 1, i: "###".to_string() },
    );
    assert!(matches!(undecodable, Err(ApiError::BadRequestDecode)));

    // An entry whose value is too short to be a session key.
    cache.insert_bin(vec![1, 2, 3], vec![9; 8]);
    let short = auth::login_verify(
        &mut cache,
        &LoginVerify { id: 1, i: base64::encode([1u8, 2, 3]) },
    );
    assert!(matches!(short, Err(ApiError::ServerError)));
}

#[test]
fn authenticate_rejects_malformed_and_unknown_tokens() {
    let mut cache = EphemeralStateCache::new();
    assert!(matches!(
        auth::authenticate(&cache, "///not valid///"),
        Err(ApiError::NotAuthenticated)
    ));
    assert!(matches!(
        auth::authenticate(&cache, &base64::encode(b"unknown")),
        Err(ApiError::NotAuthenticated)
    ));
    cache.insert_bin(b"sid".to_vec(), b"key".to_vec());
    assert_eq!(
        auth::authenticate(&cache, &base64::encode(b"sid")).unwrap(),
        b"key".to_vec()
    );
}

#[test]
fn logout_ends_a_session_exactly_once() {
    let mut cache = EphemeralStateCache::new();
    cache.insert_bin(b"sid".to_vec(), b"some session key".to_vec());
    let token = base64::encode(b"sid");
    assert!(auth::authenticate(&cache, &token).is_ok());
    assert!(auth::logout(&mut cache, &token).is_ok());
    assert!(matches!(auth::authenticate(&cache, &token), Err(ApiError::NotAuthenticated)));
    assert!(matches!(auth::logout(&mut cache, &token), Err(ApiError::NotAuthenticated)));
    assert!(matches!(auth::logout(&mut cache, "===bad==="), Err(ApiError::NotAuthenticated)));
}

#[test]
fn locker_start_reports_missing_rows_and_store_failures() {
    let identity = generate_server_identity();
    let mut cache = EphemeralStateCache::new();
    let payload = OpenLockerStart {
        id: "lk".to_string(),
        e: "u@example.com".to_string(),
        i: base64::encode(b"msg"),
    };
    let missing = locker::open_locker_start(&identity, &mut cache, &payload, &LockerFetch::Missing);
    match missing {
        Err(ApiError::LockerNotFound(id)) => assert_eq!(id, "lk"),
        other => panic!("expected LockerNotFound, got {:?}", other),
    }
    let failed = locker::open_locker_start(&identity, &mut cache, &payload, &LockerFetch::Failure);
    assert!(matches!(failed, Err(ApiError::UnknownLockerError(_))));
    let undecodable = locker::open_locker_start(
        &identity,
        &mut cache,
        &OpenLockerStart { id: "lk".to_string(), e: "u@example.com".to_string(), i: "~~~".to_string() },
        &LockerFetch::Found(sample_locker(&base64::encode(b"pf"), &base64::encode(b"ct"))),
    );
    assert!(matches!(undecodable, Err(ApiError::BadRequestDecode)));
    let corrupt_store = locker::open_locker_start(
        &identity,
        &mut cache,
        &payload,
        &LockerFetch::Found(sample_locker("not base64!", &base64::encode(b"ct"))),
    );
    assert!(matches!(corrupt_store, Err(ApiError::UnknownLockerError(_))));
}

#[test]
fn locker_finish_requires_a_cached_state() {
    let mut cache = EphemeralStateCache::new();
    let payload = OpenLockerFinish {
        id: "lk".to_string(),
        e: "u@example.com".to_string(),
        i: base64::encode(b"fin"),
        n: 12,
    };
    let row = sample_locker(&base64::encode(b"pf"), &base64::encode(b"ct"));
    let outcome = locker::open_locker_finish(&mut cache, &payload, &LockerFetch::Found(row));
    assert!(matches!(outcome, Err(ApiError::UnknownLockerError(_))));
}

#[test]
fn locker_register_start_rejects_undecodable_and_malformed_messages() {
    let identity = generate_server_identity();
    let undecodable = locker::register_locker_start(
        &identity,
        &RegisterLockerStart {
            id: "lk".to_string(),
            e: "u@example.com".to_string(),
            i: ";;;".to_string(),
        },
    );
    assert!(matches!(undecodable, Err(ApiError::BadRequestDecode)));
    let malformed = locker::register_locker_start(
        &identity,
        &RegisterLockerStart {
            id: "lk".to_string(),
            e: "u@example.com".to_string(),
            i: base64::encode(b"not a registration request"),
        },
    );
    assert!(matches!(malformed, Err(ApiError::UnknownLockerError(_))));
}

#[test]
fn register_start_rejects_undecodable_and_malformed_messages() {
    let identity = generate_server_identity();
    let mut cache = EphemeralStateCache::new();
    let undecodable = auth::register_start(
        &identity,
        &mut cache,
        &RegisterStart {
            e: "u@example.com".to_string(),
            i: "$$$".to_string(),
            c: "challenge".to_string(),
        },
    );
    assert!(matches!(undecodable, Err(ApiError::BadRequestDecode)));
    let malformed = auth::register_start(
        &identity,
        &mut cache,
        &RegisterStart {
            e: "u@example.com".to_string(),
            i: base64::encode(b"junk"),
            c: "challenge".to_string(),
        },
    );
    assert!(matches!(malformed, Err(ApiError::BadRequestProtocol)));
    // Neither failed attempt cached a challenge.
    assert_eq!(cache.get_str(&0), None);
}

#[test]
fn locker_store_outcomes_map_to_the_taxonomy() {
    let stored = locker::register_finish_stored(&StoreLockerOutcome::Stored).unwrap();
    assert_eq!(stored.output, "Success");
    assert!(matches!(
        locker::register_finish_stored(&StoreLockerOutcome::Failure),
        Err(ApiError::UnknownLockerError(_))
    ));
    let deleted = locker::delete_contents(&DeleteOutcome::Deleted, 31).unwrap();
    assert_eq!(deleted.output, "Key deleted!");
    assert_eq!(deleted.nonce, 31);
    assert!(matches!(
        locker::delete_contents(&DeleteOutcome::Failure, 31),
        Err(ApiError::UnknownLockerError(_))
    ));
}
