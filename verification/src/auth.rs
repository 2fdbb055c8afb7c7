//! User registration, login and bearer-session issuance.
//!
//! Each operation correlates the two legs of a handshake through the
//! ephemeral-state cache and states exactly how it transforms the cache's
//! two maps.  A session key is never accepted as a bearer credential until
//! the holder proves possession of it: login-finish issues a sealed random
//! challenge and caches the session key under the challenge's digest;
//! login-verify consumes that entry exactly once and confirms the session
//! under an identifier that cannot be derived without the key.

use vstd::prelude::*;

use crate::cache::CacheModel;
use crate::cache::EphemeralStateCache;
use crate::codec;
use crate::crypto;
use crate::errors::ApiError;
use crate::models::StoreUserOutcome;
use crate::models::UserFetch;
use crate::opaque;
use crate::opaque::ServerIdentity;
use crate::requests::LoginFinish;
use crate::requests::LoginStart;
use crate::requests::LoginVerify;
use crate::requests::RegisterFinish;
use crate::requests::RegisterStart;

verus! {

/// A handshake response: the transaction id and an opaque payload.
#[derive(Debug)]
pub struct ProtocolResponse {
    pub id: u32,
    pub output: String,
}

/// What registration-finish decides before anything is persisted.
#[derive(Debug)]
pub enum RegisterFinishOutcome {
    /// The proof-of-intent challenge matched; the base64-encoded password
    /// file is ready to be persisted for the email.
    Accepted { password_file: String },
    /// The challenge recomputed from the supplied verifier does not equal
    /// the cached one.
    ChallengeMismatch,
}

/// The cached challenge equals the one recomputed from the supplied
/// base64-encoded verifier.
pub open spec fn challenge_matches(cached: Seq<u8>, verifier: Seq<char>) -> bool {
    &&& codec::b64_decoded(verifier) is Some
    &&& cached == codec::code_challenge_of(codec::b64_decoded(verifier)->Some_0)
}

/// The user lookup produced a live (non-deleted) user.
pub open spec fn usable_user(fetch: UserFetch) -> bool {
    fetch matches UserFetch::Found(u) && !u.deleted
}

/// Start a user registration: run the PAKE registration start for the
/// email, store the proof-of-intent challenge under a fresh transaction
/// nonce, and answer with the serialized registration response.
pub fn register_start(
    identity: &ServerIdentity,
    cache: &mut EphemeralStateCache,
    payload: &RegisterStart,
) -> (r: Result<ProtocolResponse, ApiError>)
    ensures
        final(cache)@.bin == old(cache)@.bin,
        match r {
            Ok(resp) => {
                &&& codec::b64_decoded(payload.i@) is Some
                &&& opaque::registration_response_of(
                    identity.setup@,
                    codec::b64_decoded(payload.i@)->Some_0,
                    codec::str_bytes(payload.e@),
                ) is Some
                &&& resp.output@ == codec::b64_of(
                    opaque::registration_response_of(
                        identity.setup@,
                        codec::b64_decoded(payload.i@)->Some_0,
                        codec::str_bytes(payload.e@),
                    )->Some_0,
                )
                &&& final(cache)@.pending == old(cache)@.pending.insert(
                    resp.id,
                    codec::str_bytes(payload.c@),
                )
            },
            Err(e) => {
                &&& final(cache)@.pending == old(cache)@.pending
                &&& (e is BadRequestDecode <==> codec::b64_decoded(payload.i@) is None)
                &&& (e is BadRequestProtocol <==> codec::b64_decoded(payload.i@) is Some
                    && opaque::registration_response_of(
                    identity.setup@,
                    codec::b64_decoded(payload.i@)->Some_0,
                    codec::str_bytes(payload.e@),
                ) is None)
                &&& (e is BadRequestDecode || e is BadRequestProtocol)
            },
        },
{
    let request = match codec::b64_decode(payload.i.as_str()) {
        Ok(v) => v,
        Err(_) => {
            return Err(ApiError::BadRequestDecode);
        },
    };
    let message = match opaque::server_side_registration_start(
        identity,
        request.as_slice(),
        payload.e.as_str().as_bytes(),
    ) {
        Ok(m) => m,
        Err(_) => {
            return Err(ApiError::BadRequestProtocol);
        },
    };
    let nonce = crypto::create_nonce();
    cache.insert_str(nonce, payload.c.as_str());
    Ok(ProtocolResponse { id: nonce, output: codec::b64_encode(message.as_slice()) })
}

/// Finish a user registration: recompute the proof-of-intent challenge from
/// the supplied verifier, require exact equality with the cached one, and
/// finish the PAKE registration into a password file for the caller to
/// persist.  The cached challenge is consumed exactly when it matched.
pub fn register_finish(cache: &mut EphemeralStateCache, payload: &RegisterFinish) -> (r: Result<
    RegisterFinishOutcome,
    ApiError,
>)
    ensures
        final(cache)@.bin == old(cache)@.bin,
        match r {
            Ok(out) => match out {
                RegisterFinishOutcome::Accepted { password_file } => {
                    &&& old(cache)@.pending.contains_key(payload.id)
                    &&& challenge_matches(old(cache)@.pending[payload.id], payload.v@)
                    &&& codec::b64_decoded(payload.i@) is Some
                    &&& opaque::password_file_of(codec::b64_decoded(payload.i@)->Some_0) is Some
                    &&& password_file@ == codec::b64_of(
                        opaque::password_file_of(codec::b64_decoded(payload.i@)->Some_0)->Some_0,
                    )
                    &&& final(cache)@.pending == old(cache)@.pending.remove(payload.id)
                },
                RegisterFinishOutcome::ChallengeMismatch => {
                    &&& old(cache)@.pending.contains_key(payload.id)
                    &&& codec::b64_decoded(payload.v@) is Some
                    &&& !challenge_matches(old(cache)@.pending[payload.id], payload.v@)
                    &&& final(cache)@.pending == old(cache)@.pending
                },
            },
            Err(e) => {
                &&& final(cache)@.pending == old(cache)@.pending
                &&& (e is BadRequest <==> !old(cache)@.pending.contains_key(payload.id))
                &&& (e is BadRequestDecode <==> old(cache)@.pending.contains_key(payload.id) && (
                codec::b64_decoded(payload.v@) is None || (challenge_matches(
                    old(cache)@.pending[payload.id],
                    payload.v@,
                ) && codec::b64_decoded(payload.i@) is None)))
                &&& (e is BadRequestProtocol <==> old(cache)@.pending.contains_key(payload.id)
                    && challenge_matches(old(cache)@.pending[payload.id], payload.v@)
                    && codec::b64_decoded(payload.i@) is Some && opaque::password_file_of(
                    codec::b64_decoded(payload.i@)->Some_0,
                ) is None)
                &&& (e is BadRequest || e is BadRequestDecode || e is BadRequestProtocol)
            },
        },
{
    let cached = match cache.get(&payload.id) {
        Some(v) => v,
        None => {
            return Err(ApiError::BadRequest);
        },
    };
    let verifier = match codec::b64_decode(payload.v.as_str()) {
        Ok(v) => v,
        Err(_) => {
            return Err(ApiError::BadRequestDecode);
        },
    };
    let actual = codec::code_challenge(verifier.as_slice());
    if !codec::bytes_eq(cached.as_slice(), actual.as_slice()) {
        return Ok(RegisterFinishOutcome::ChallengeMismatch);
    }
    let upload = match codec::b64_decode(payload.i.as_str()) {
        Ok(v) => v,
        Err(_) => {
            return Err(ApiError::BadRequestDecode);
        },
    };
    let file = match opaque::server_side_registration_finish(upload.as_slice()) {
        Ok(f) => f,
        Err(_) => {
            return Err(ApiError::BadRequestProtocol);
        },
    };
    cache.consume(payload.id);
    Ok(RegisterFinishOutcome::Accepted { password_file: codec::b64_encode(file.as_slice()) })
}

/// Map what persistence reported for the new user row to the response of
/// registration-finish: a duplicate email is reported as a bad confirmation
/// key or wrong email, any other store failure as an unknown error.
pub fn register_finish_stored(id: u32, outcome: &StoreUserOutcome) -> (r: Result<
    ProtocolResponse,
    ApiError,
>)
    ensures
        match r {
            Ok(resp) => outcome is Created && resp.id == id && resp.output@ == "ok"@,
            Err(e) => {
                &&& (e is BadConfirmationKeyOrWrongEmail <==> outcome is DuplicateEmail)
                &&& (e is UnknownError <==> outcome is Failure)
                &&& !(outcome is Created)
            },
        },
{
    match outcome {
        StoreUserOutcome::Created => Ok(
            ProtocolResponse { id, output: "ok".to_owned() },
        ),
        StoreUserOutcome::DuplicateEmail => Err(ApiError::BadConfirmationKeyOrWrongEmail),
        StoreUserOutcome::Failure => Err(ApiError::UnknownError),
    }
}

/// Start a user login: require a live user row, run the PAKE login start
/// for the email against the stored password file, cache the server login
/// state under a fresh transaction nonce, and answer with the serialized
/// credential response.  The state and message carry server randomness, so
/// only their placement in the cache is stated.
pub fn login_start(
    identity: &ServerIdentity,
    cache: &mut EphemeralStateCache,
    payload: &LoginStart,
    fetch: &UserFetch,
) -> (r: Result<ProtocolResponse, ApiError>)
    ensures
        final(cache)@.bin == old(cache)@.bin,
        match r {
            Ok(resp) => {
                &&& usable_user(*fetch)
                &&& codec::b64_decoded(fetch->Found_0.psswd_file@) is Some
                &&& codec::b64_decoded(payload.i@) is Some
                &&& final(cache)@.pending.contains_key(resp.id)
                &&& final(cache)@.pending.remove(resp.id) == old(cache)@.pending.remove(resp.id)
            },
            Err(e) => {
                &&& final(cache)@.pending == old(cache)@.pending
                &&& (e is LoginError <==> !usable_user(*fetch))
                &&& (e is BadRequestDecode <==> usable_user(*fetch) && codec::b64_decoded(
                    fetch->Found_0.psswd_file@,
                ) is Some && codec::b64_decoded(payload.i@) is None)
                &&& (e is BadRequestProtocol ==> usable_user(*fetch))
                &&& (usable_user(*fetch) && codec::b64_decoded(fetch->Found_0.psswd_file@) is None
                    ==> e is BadRequestProtocol)
                &&& (e is LoginError || e is BadRequestDecode || e is BadRequestProtocol)
            },
        },
{
    let user = match fetch {
        UserFetch::Found(u) => u,
        UserFetch::Missing => {
            return Err(ApiError::LoginError("User not found!".to_owned()));
        },
        UserFetch::Failure => {
            return Err(ApiError::LoginError("User not found!".to_owned()));
        },
    };
    if user.deleted {
        return Err(ApiError::LoginError("User not found!".to_owned()));
    }
    let file = match codec::b64_decode(user.psswd_file.as_str()) {
        Ok(v) => v,
        Err(_) => {
            return Err(ApiError::BadRequestProtocol);
        },
    };
    let request = match codec::b64_decode(payload.i.as_str()) {
        Ok(v) => v,
        Err(_) => {
            return Err(ApiError::BadRequestDecode);
        },
    };
    let nonce = crypto::create_nonce();
    let (message, state) = match opaque::login_start(
        identity,
        file.as_slice(),
        request.as_slice(),
        payload.e.as_str().as_bytes(),
    ) {
        Ok(p) => p,
        Err(_) => {
            return Err(ApiError::BadRequestProtocol);
        },
    };
    let ghost st = state@;
    cache.insert(nonce, state);
    proof {
        assert(cache@.pending == old(cache)@.pending.insert(nonce, st));
        assert(cache@.pending.remove(nonce) =~= old(cache)@.pending.remove(nonce));
    }
    Ok(ProtocolResponse { id: nonce, output: codec::b64_encode(message.as_slice()) })
}

/// Finish a user login: consume the cached server login state for the
/// transaction nonce (any finish attempt burns it), finish the PAKE login,
/// and on success seal a fresh random challenge under the session key,
/// cache the key under the challenge's digest, and answer with the random
/// bytes.  A finalization that does not agree with the state — a wrong
/// password, a tampered message or a mismatched identity binding — fails
/// and leaves no session proof behind.
pub fn login_finish(cache: &mut EphemeralStateCache, payload: &LoginFinish) -> (r: Result<
    ProtocolResponse,
    ApiError,
>)
    ensures
        final(cache)@.pending == old(cache)@.pending.remove(payload.id),
        match r {
            Ok(resp) => {
                &&& old(cache)@.pending.contains_key(payload.id)
                &&& codec::b64_decoded(payload.i@) is Some
                &&& ({
                    let state = old(cache)@.pending[payload.id];
                    let fin = codec::b64_decoded(payload.i@)->Some_0;
                    &&& opaque::session_key_of(state, fin) is Some
                    &&& ({
                        let key = opaque::session_key_of(state, fin)->Some_0;
                        &&& key.len() == 32
                        &&& resp.id == payload.id
                        &&& exists|rb: Seq<u8>|
                            {
                                &&& rb.len() == 32
                                &&& resp.output@ == codec::b64_of(rb)
                                &&& ({
                                    let digest = codec::sha256_of(
                                        crypto::sealed_with_nonce(payload.id, key, rb),
                                    );
                                    &&& digest.len() == 32
                                    &&& final(cache)@.bin == old(cache)@.bin.insert(digest, key)
                                })
                            }
                    })
                })
            },
            Err(e) => {
                &&& final(cache)@.bin == old(cache)@.bin
                &&& (e is BadRequest <==> !old(cache)@.pending.contains_key(payload.id))
                &&& (e is BadRequestDecode <==> old(cache)@.pending.contains_key(payload.id)
                    && codec::b64_decoded(payload.i@) is None)
                &&& (e is BadRequestProtocol <==> old(cache)@.pending.contains_key(payload.id)
                    && codec::b64_decoded(payload.i@) is Some && opaque::session_key_of(
                    old(cache)@.pending[payload.id],
                    codec::b64_decoded(payload.i@)->Some_0,
                ) is None)
                &&& (e is BadRequest || e is BadRequestDecode || e is BadRequestProtocol)
            },
        },
{
    let state = match cache.consume(payload.id) {
        Some(v) => v,
        None => {
            return Err(ApiError::BadRequest);
        },
    };
    let finalization = match codec::b64_decode(payload.i.as_str()) {
        Ok(v) => v,
        Err(_) => {
            return Err(ApiError::BadRequestDecode);
        },
    };
    let session_key = match opaque::login_finish(state.as_slice(), finalization.as_slice()) {
        Ok(k) => k,
        Err(_) => {
            return Err(ApiError::BadRequestProtocol);
        },
    };
    let rand = crypto::rand_bytes();
    let ghost rb = rand@;
    let ciphertext = crypto::encrypt_bytes_with_u32_nonce(
        &payload.id,
        session_key.as_slice(),
        rand.as_slice(),
    );
    let client_hash = codec::sha256(ciphertext.as_slice());
    cache.insert_bin(client_hash, session_key);
    let output = codec::b64_encode(rand.as_slice());
    proof {
        assert(rb.len() == 32 && output@ == codec::b64_of(rb));
    }
    Ok(ProtocolResponse { id: payload.id, output })
}

/// Verify possession of a session key: look up the pending session proof
/// under the submitted digest, confirm the session under an identifier
/// sealed from the key and the transaction nonce, and delete the proof
/// entry, so that the same digest can never be verified twice.  The
/// base64-encoded identifier in the answer is the bearer token for all
/// subsequent authenticated calls.
pub fn login_verify(cache: &mut EphemeralStateCache, payload: &LoginVerify) -> (r: Result<
    ProtocolResponse,
    ApiError,
>)
    ensures
        final(cache)@.pending == old(cache)@.pending,
        match r {
            Ok(resp) => {
                &&& codec::b64_decoded(payload.i@) is Some
                &&& ({
                    let digest = codec::b64_decoded(payload.i@)->Some_0;
                    &&& old(cache)@.bin.contains_key(digest)
                    &&& ({
                        let key = old(cache)@.bin[digest];
                        let session_id = crypto::sealed_with_nonce(
                            payload.id,
                            key,
                            crypto::u32_be(payload.id),
                        );
                        &&& key.len() >= 32
                        &&& session_id.len() == 20
                        &&& resp.id == 0
                        &&& resp.output@ == codec::b64_of(session_id)
                        &&& final(cache)@.bin == old(cache)@.bin.insert(session_id, key).remove(
                            digest,
                        )
                    })
                })
            },
            Err(e) => {
                &&& final(cache)@.bin == old(cache)@.bin
                &&& (e is BadRequestDecode <==> codec::b64_decoded(payload.i@) is None)
                &&& (e is LoginError <==> codec::b64_decoded(payload.i@) is Some && !old(
                    cache,
                )@.bin.contains_key(codec::b64_decoded(payload.i@)->Some_0))
                &&& (e is ServerError <==> codec::b64_decoded(payload.i@) is Some && old(
                    cache,
                )@.bin.contains_key(codec::b64_decoded(payload.i@)->Some_0) && old(cache)@.bin[
                    codec::b64_decoded(payload.i@)->Some_0
                ].len() < 32)
                &&& (e is BadRequestDecode || e is LoginError || e is ServerError)
            },
        },
{
    let client_hash = match codec::b64_decode(payload.i.as_str()) {
        Ok(v) => v,
        Err(_) => {
            return Err(ApiError::BadRequestDecode);
        },
    };
    let session_key = match cache.get_bin(client_hash.as_slice()) {
        Some(v) => v,
        None => {
            return Err(ApiError::LoginError("Failed".to_owned()));
        },
    };
    if session_key.len() < 32 {
        return Err(ApiError::ServerError);
    }
    let nonce_bytes = crypto::u32_to_be_bytes(payload.id);
    let session_key_id = crypto::encrypt_bytes_with_u32_nonce(
        &payload.id,
        session_key.as_slice(),
        nonce_bytes.as_slice(),
    );
    let output = codec::b64_encode(session_key_id.as_slice());
    cache.insert_bin(session_key_id, session_key);
    cache.delete_bin(client_hash.as_slice());
    Ok(ProtocolResponse { id: 0, output })
}

/// Resolve a bearer token: decode it and look up the confirmed session it
/// names; the session key is handed to the downstream operation, and any
/// malformed or unrecognized token is rejected as not authenticated.
pub fn authenticate(cache: &EphemeralStateCache, token: &str) -> (r: Result<Vec<u8>, ApiError>)
    ensures
        match r {
            Ok(key) => {
                &&& codec::b64_decoded(token@) is Some
                &&& cache@.bin.contains_key(codec::b64_decoded(token@)->Some_0)
                &&& key@ == cache@.bin[codec::b64_decoded(token@)->Some_0]
            },
            Err(e) => {
                &&& e is NotAuthenticated
                &&& (codec::b64_decoded(token@) is None || !cache@.bin.contains_key(
                    codec::b64_decoded(token@)->Some_0,
                ))
            },
        },
{
    let session_id = match codec::b64_decode(token) {
        Ok(v) => v,
        Err(_) => {
            return Err(ApiError::NotAuthenticated);
        },
    };
    match cache.get_bin(session_id.as_slice()) {
        Some(key) => Ok(key),
        None => Err(ApiError::NotAuthenticated),
    }
}

/// End a bearer session: decode the token and delete the confirmed session
/// it names.  Confirmed sessions have no structural expiry, so this is the
/// one way an issued bearer token stops working.
pub fn logout(cache: &mut EphemeralStateCache, token: &str) -> (r: Result<(), ApiError>)
    ensures
        final(cache)@.pending == old(cache)@.pending,
        match r {
            Ok(_) => {
                &&& codec::b64_decoded(token@) is Some
                &&& old(cache)@.bin.contains_key(codec::b64_decoded(token@)->Some_0)
                &&& final(cache)@.bin == old(cache)@.bin.remove(
                    codec::b64_decoded(token@)->Some_0,
                )
            },
            Err(e) => {
                &&& e is NotAuthenticated
                &&& (codec::b64_decoded(token@) matches Some(session_id) ==> {
                    &&& !old(cache)@.bin.contains_key(session_id)
                    &&& final(cache)@.bin == old(cache)@.bin.remove(session_id)
                })
                &&& (codec::b64_decoded(token@) is None ==> final(cache)@.bin == old(cache)@.bin)
            },
        },
{
    let session_id = match codec::b64_decode(token) {
        Ok(v) => v,
        Err(_) => {
            return Err(ApiError::NotAuthenticated);
        },
    };
    if cache.delete_bin(session_id.as_slice()) {
        Ok(())
    } else {
        Err(ApiError::NotAuthenticated)
    }
}

/// Law: a pending handshake state is consumed at most once.  Every finish
/// call leaves the cache with the transaction nonce removed, so a second
/// finish with the same nonce finds nothing and — by the contract of
/// `login_finish` — fails with the not-found error.
pub proof fn lemma_pending_consumed_at_most_once(pre: CacheModel, post: CacheModel, nonce: u32)
    requires
        post.pending == pre.pending.remove(nonce),
    ensures
        !post.pending.contains_key(nonce),
{
}

/// Law: a failed login-finish yields no session.  When the finalization
/// does not agree with the consumed state, `login_finish` leaves the
/// digest-keyed entries untouched, so no pending session proof and no
/// confirmed session appears that was not already there.
pub proof fn lemma_failed_login_yields_no_session(pre: CacheModel, post: CacheModel, nonce: u32)
    requires
        post.bin == pre.bin,
        post.pending == pre.pending.remove(nonce),
    ensures
        forall|digest: Seq<u8>| #[trigger]
            post.bin.contains_key(digest) ==> pre.bin.contains_key(digest),
        !post.pending.contains_key(nonce),
{
}

/// Law: the possession-proof round trip, over the cache model.  After a
/// successful login-finish the issued 32-byte digest names the session key,
/// so a verify with that digest succeeds; after the verify the confirmed
/// session stands under the 20-byte sealed identifier and the proof entry
/// is gone, so a second verify with the same digest fails.  The lengths are
/// the ones `login_finish` and `login_verify` state for the digest and the
/// identifier.
pub proof fn lemma_possession_proof_round_trip(
    pre: CacheModel,
    after_finish: CacheModel,
    after_verify: CacheModel,
    digest: Seq<u8>,
    session_id: Seq<u8>,
    key: Seq<u8>,
)
    requires
        digest.len() == 32,
        session_id.len() == 20,
        after_finish.bin == pre.bin.insert(digest, key),
        after_verify.bin == after_finish.bin.insert(session_id, key).remove(digest),
    ensures
        after_finish.bin.contains_key(digest),
        after_finish.bin[digest] == key,
        after_verify.bin.contains_key(session_id),
        after_verify.bin[session_id] == key,
        !after_verify.bin.contains_key(digest),
{
    assert(digest != session_id);
}

} // verus!
