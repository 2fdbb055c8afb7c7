//! Locker operations: registration, opening and deletion of a per-locker
//! secret blob, each gated by the locker's own PAKE handshake.
//!
//! A locker is an independently PAKE-protected, AEAD-sealed secret owned by
//! a user.  Opening and deleting require the same possession proof: a login
//! handshake keyed by the locker id, whose cached server state is consumed
//! exactly once by the matching finish call.  The persistence collaborator
//! owns the locker rows; these operations receive the fetched row and the
//! store outcomes as plain values.

use vstd::prelude::*;

use crate::cache::CacheModel;
use crate::cache::EphemeralStateCache;
use crate::codec;
use crate::crypto;
use crate::errors::ApiError;
use crate::models::DeleteOutcome;
use crate::models::LockerFetch;
use crate::models::NewLocker;
use crate::models::StoreLockerOutcome;
use crate::opaque;
use crate::opaque::ServerIdentity;
use crate::requests::DeleteLockerFinish;
use crate::requests::DeleteLockerStart;
use crate::requests::OpenLockerFinish;
use crate::requests::OpenLockerStart;
use crate::requests::RegisterLockerFinish;
use crate::requests::RegisterLockerStart;

verus! {

/// Response of a locker operation: an id and payload as in the user
/// handshakes, and the transaction nonce correlating start and finish.
#[derive(Debug)]
pub struct LockerResponse {
    pub id: u32,
    pub output: String,
    pub nonce: u32,
}

/// Everything a locker finish step needs to succeed: a cached server login
/// state under the nonce, a finalization that agrees with it, a fetched
/// locker row, and a stored ciphertext that decodes and fits the sealer.
pub open spec fn finish_accepted(
    pre: CacheModel,
    fetch: LockerFetch,
    input: Seq<u8>,
    nonce: u32,
) -> bool {
    &&& pre.pending.contains_key(nonce)
    &&& opaque::session_key_of(pre.pending[nonce], input) is Some
    &&& fetch matches LockerFetch::Found(l)
    &&& codec::b64_decoded(l.ciphertext@) is Some
    &&& codec::b64_decoded(l.ciphertext@)->Some_0.len() <= crypto::MAX_SEAL_LEN
}

/// Start a locker registration: run the PAKE registration start keyed by
/// the locker id and answer with the serialized registration response.
/// Nothing is cached: registration finish is stateless.
pub fn register_start(identity: &ServerIdentity, id: &str, input: &[u8]) -> (r: Result<
    LockerResponse,
    ApiError,
>)
    ensures
        match r {
            Ok(resp) => {
                &&& opaque::registration_response_of(
                    identity.setup@,
                    input@,
                    codec::str_bytes(id@),
                ) is Some
                &&& resp.id == 0
                &&& resp.nonce == 0
                &&& resp.output@ == codec::b64_of(
                    opaque::registration_response_of(
                        identity.setup@,
                        input@,
                        codec::str_bytes(id@),
                    )->Some_0,
                )
            },
            Err(e) => {
                &&& e is UnknownLockerError
                &&& opaque::registration_response_of(
                    identity.setup@,
                    input@,
                    codec::str_bytes(id@),
                ) is None
            },
        },
{
    match opaque::server_side_registration_start(identity, input, id.as_bytes()) {
        Ok(message) => Ok(
            LockerResponse { id: 0, output: codec::b64_encode(message.as_slice()), nonce: 0 },
        ),
        Err(_) => Err(
            ApiError::UnknownLockerError(
                "There was an error during register_locker_start".to_owned(),
            ),
        ),
    }
}

/// Finish a locker registration: finish the PAKE registration into the
/// locker's own password file and hand back the row to persist, with the
/// password file and the secret blob base64-encoded as they are stored.
pub fn register_finish(locker_id: &str, email: &str, input: &[u8], ciphertext: &[u8]) -> (r:
    Result<NewLocker, ApiError>)
    ensures
        match r {
            Ok(row) => {
                &&& opaque::password_file_of(input@) is Some
                &&& row.email@ == email@
                &&& row.locker_id@ == locker_id@
                &&& row.psswd_file@ == codec::b64_of(opaque::password_file_of(input@)->Some_0)
                &&& row.ciphertext@ == codec::b64_of(ciphertext@)
            },
            Err(e) => {
                &&& e is UnknownLockerError
                &&& opaque::password_file_of(input@) is None
            },
        },
{
    match opaque::server_side_registration_finish(input) {
        Ok(file) => Ok(
            NewLocker {
                email: email.to_owned(),
                locker_id: locker_id.to_owned(),
                psswd_file: codec::b64_encode(file.as_slice()),
                ciphertext: codec::b64_encode(ciphertext),
            },
        ),
        Err(_) => Err(
            ApiError::UnknownLockerError(
                "There was an error during register_locker_finish".to_owned(),
            ),
        ),
    }
}

/// Map what persistence reported for the new locker row to the response of
/// locker registration-finish: any store failure is an unknown locker
/// error, so a failed insert can never pass for success.
pub fn register_finish_stored(outcome: &StoreLockerOutcome) -> (r: Result<
    LockerResponse,
    ApiError,
>)
    ensures
        match r {
            Ok(resp) => {
                &&& outcome is Stored
                &&& resp.id == 0
                &&& resp.output@ == "Success"@
                &&& resp.nonce == 0
            },
            Err(e) => outcome is Failure && e is UnknownLockerError,
        },
{
    match outcome {
        StoreLockerOutcome::Stored => Ok(
            LockerResponse { id: 0, output: "Success".to_owned(), nonce: 0 },
        ),
        StoreLockerOutcome::Failure => Err(
            ApiError::UnknownLockerError(
                "There was an error during register_locker_finish".to_owned(),
            ),
        ),
    }
}

/// Start opening a locker: require the fetched locker row, run the PAKE
/// login start keyed by the locker id against the locker's password file,
/// and cache the server login state under a fresh nonce, distinct from and
/// unrelated to any user-login nonce.
pub fn open_start(
    identity: &ServerIdentity,
    cache: &mut EphemeralStateCache,
    locker_id: &str,
    fetch: &LockerFetch,
    input: &[u8],
) -> (r: Result<LockerResponse, ApiError>)
    ensures
        final(cache)@.bin == old(cache)@.bin,
        match r {
            Ok(resp) => {
                &&& *fetch matches LockerFetch::Found(l)
                &&& codec::b64_decoded(fetch->Found_0.psswd_file@) is Some
                &&& resp.id == 0
                &&& final(cache)@.pending.contains_key(resp.nonce)
                &&& final(cache)@.pending.remove(resp.nonce) == old(cache)@.pending.remove(
                    resp.nonce,
                )
            },
            Err(e) => {
                &&& final(cache)@.pending == old(cache)@.pending
                &&& (e is LockerNotFound <==> *fetch is Missing)
                &&& (*fetch is Missing ==> e->LockerNotFound_0@ == locker_id@)
                &&& (e is UnknownLockerError ==> !(*fetch is Missing))
                &&& (*fetch is Failure ==> e is UnknownLockerError)
                &&& (*fetch matches LockerFetch::Found(l) && codec::b64_decoded(l.psswd_file@)
                    is None ==> e is UnknownLockerError)
                &&& (e is LockerNotFound || e is UnknownLockerError)
            },
        },
{
    let locker = match fetch {
        LockerFetch::Found(l) => l,
        LockerFetch::Missing => {
            return Err(ApiError::LockerNotFound(locker_id.to_owned()));
        },
        LockerFetch::Failure => {
            return Err(
                ApiError::UnknownLockerError(
                    "There was an error during open_locker_start".to_owned(),
                ),
            );
        },
    };
    let file = match codec::b64_decode(locker.psswd_file.as_str()) {
        Ok(v) => v,
        Err(_) => {
            return Err(
                ApiError::UnknownLockerError(
                    "There was an error during open_locker_start".to_owned(),
                ),
            );
        },
    };
    let nonce = crypto::create_nonce();
    let (message, state) = match opaque::login_start(
        identity,
        file.as_slice(),
        input,
        locker_id.as_bytes(),
    ) {
        Ok(p) => p,
        Err(_) => {
            return Err(
                ApiError::UnknownLockerError(
                    "There was an error during open_locker_start".to_owned(),
                ),
            );
        },
    };
    let ghost st = state@;
    cache.insert(nonce, state);
    proof {
        assert(cache@.pending == old(cache)@.pending.insert(nonce, st));
        assert(cache@.pending.remove(nonce) =~= old(cache)@.pending.remove(nonce));
    }
    Ok(LockerResponse { id: 0, output: codec::b64_encode(message.as_slice()), nonce })
}

/// Finish opening a locker: consume the cached server login state for the
/// nonce (any finish attempt burns it), finish the PAKE login keyed to this
/// open transaction, and seal the locker's stored ciphertext under the
/// derived session key with a fresh random cipher nonce prefixed to the
/// blob.  Only the client, which derived the same session key on its side,
/// can open the blob; the server never holds a reusable key for it.
pub fn open_finish(
    cache: &mut EphemeralStateCache,
    locker_id: &str,
    fetch: &LockerFetch,
    input: &[u8],
    nonce: u32,
) -> (r: Result<LockerResponse, ApiError>)
    ensures
        final(cache)@.bin == old(cache)@.bin,
        final(cache)@.pending == old(cache)@.pending.remove(nonce),
        r is Ok <==> finish_accepted(old(cache)@, *fetch, input@, nonce),
        match r {
            Ok(resp) => {
                &&& resp.id == 0
                &&& resp.nonce == nonce
                &&& exists|sealed: Seq<u8>|
                    {
                        &&& sealed.len() == codec::b64_decoded(
                            fetch->Found_0.ciphertext@,
                        )->Some_0.len() + 28
                        &&& resp.output@ == codec::b64_of(sealed)
                    }
            },
            Err(e) => {
                &&& (e is LockerNotFound <==> old(cache)@.pending.contains_key(nonce)
                    && opaque::session_key_of(old(cache)@.pending[nonce], input@) is Some
                    && *fetch is Missing)
                &&& (e is LockerNotFound || e is UnknownLockerError)
            },
        },
{
    let state = match cache.consume(nonce) {
        Some(v) => v,
        None => {
            return Err(
                ApiError::UnknownLockerError(
                    "There was an error during open_locker_finish".to_owned(),
                ),
            );
        },
    };
    let session_key = match opaque::login_finish(state.as_slice(), input) {
        Ok(k) => k,
        Err(_) => {
            return Err(
                ApiError::UnknownLockerError(
                    "There was an error during open_locker_finish".to_owned(),
                ),
            );
        },
    };
    let locker = match fetch {
        LockerFetch::Found(l) => l,
        LockerFetch::Missing => {
            return Err(ApiError::LockerNotFound(locker_id.to_owned()));
        },
        LockerFetch::Failure => {
            return Err(
                ApiError::UnknownLockerError(
                    "There was an error during open_locker_finish".to_owned(),
                ),
            );
        },
    };
    let contents = match codec::b64_decode(locker.ciphertext.as_str()) {
        Ok(v) => v,
        Err(_) => {
            return Err(
                ApiError::UnknownLockerError(
                    "There was an error during open_locker_finish".to_owned(),
                ),
            );
        },
    };
    if contents.len() > crypto::MAX_SEAL_LEN {
        return Err(
            ApiError::UnknownLockerError(
                "There was an error during open_locker_finish".to_owned(),
            ),
        );
    }
    let sealed = crypto::encrypt_locker(session_key.as_slice(), contents.as_slice());
    let output = codec::b64_encode(sealed.as_slice());
    proof {
        assert(sealed@.len() == codec::b64_decoded(fetch->Found_0.ciphertext@)->Some_0.len()
            + 28 && output@ == codec::b64_of(sealed@));
    }
    Ok(LockerResponse { id: 0, output, nonce })
}

/// Start deleting a locker.  Deletion requires the same possession proof as
/// opening, so this is the open handshake, state cached under a fresh nonce.
pub fn delete_start(
    identity: &ServerIdentity,
    cache: &mut EphemeralStateCache,
    locker_id: &str,
    fetch: &LockerFetch,
    input: &[u8],
) -> (r: Result<LockerResponse, ApiError>)
    ensures
        final(cache)@.bin == old(cache)@.bin,
        match r {
            Ok(resp) => {
                &&& *fetch matches LockerFetch::Found(l)
                &&& codec::b64_decoded(fetch->Found_0.psswd_file@) is Some
                &&& resp.id == 0
                &&& final(cache)@.pending.contains_key(resp.nonce)
                &&& final(cache)@.pending.remove(resp.nonce) == old(cache)@.pending.remove(
                    resp.nonce,
                )
            },
            Err(e) => {
                &&& final(cache)@.pending == old(cache)@.pending
                &&& (e is LockerNotFound <==> *fetch is Missing)
                &&& (e is LockerNotFound || e is UnknownLockerError)
            },
        },
{
    open_start(identity, cache, locker_id, fetch, input)
}

/// Finish deleting a locker: run the open possession proof to completion;
/// only when it succeeds may the caller delete the persisted row.  Every
/// failure is reported as an unknown locker error.
pub fn delete_finish(
    cache: &mut EphemeralStateCache,
    locker_id: &str,
    fetch: &LockerFetch,
    input: &[u8],
    nonce: u32,
) -> (r: Result<(), ApiError>)
    ensures
        final(cache)@.bin == old(cache)@.bin,
        final(cache)@.pending == old(cache)@.pending.remove(nonce),
        r is Ok <==> finish_accepted(old(cache)@, *fetch, input@, nonce),
        r is Err ==> r->Err_0 is UnknownLockerError,
{
    match open_finish(cache, locker_id, fetch, input, nonce) {
        Ok(_) => Ok(()),
        Err(_) => Err(
            ApiError::UnknownLockerError(
                "There was an error during locker::delete_finish".to_owned(),
            ),
        ),
    }
}

/// Map what persistence reported for the row deletion to the response of
/// locker deletion-finish.  Deletion is fatal-safe: a failed delete is
/// reported as an unknown locker error, never as success.
pub fn delete_contents(outcome: &DeleteOutcome, nonce: u32) -> (r: Result<
    LockerResponse,
    ApiError,
>)
    ensures
        match r {
            Ok(resp) => {
                &&& outcome is Deleted
                &&& resp.id == 0
                &&& resp.output@ == "Key deleted!"@
                &&& resp.nonce == nonce
            },
            Err(e) => outcome is Failure && e is UnknownLockerError,
        },
{
    match outcome {
        DeleteOutcome::Deleted => Ok(
            LockerResponse { id: 0, output: "Key deleted!".to_owned(), nonce },
        ),
        DeleteOutcome::Failure => Err(
            ApiError::UnknownLockerError(
                "There was an error during locker::delete_contents".to_owned(),
            ),
        ),
    }
}

/// The locker registration-start endpoint: decode the client message and
/// run the registration start keyed by the locker id.
pub fn register_locker_start(identity: &ServerIdentity, payload: &RegisterLockerStart) -> (r:
    Result<LockerResponse, ApiError>)
    ensures
        match r {
            Ok(resp) => {
                &&& codec::b64_decoded(payload.i@) is Some
                &&& opaque::registration_response_of(
                    identity.setup@,
                    codec::b64_decoded(payload.i@)->Some_0,
                    codec::str_bytes(payload.id@),
                ) is Some
                &&& resp.id == 0
                &&& resp.nonce == 0
                &&& resp.output@ == codec::b64_of(
                    opaque::registration_response_of(
                        identity.setup@,
                        codec::b64_decoded(payload.i@)->Some_0,
                        codec::str_bytes(payload.id@),
                    )->Some_0,
                )
            },
            Err(e) => {
                &&& (e is BadRequestDecode <==> codec::b64_decoded(payload.i@) is None)
                &&& (e is UnknownLockerError <==> codec::b64_decoded(payload.i@) is Some
                    && opaque::registration_response_of(
                    identity.setup@,
                    codec::b64_decoded(payload.i@)->Some_0,
                    codec::str_bytes(payload.id@),
                ) is None)
                &&& (e is BadRequestDecode || e is UnknownLockerError)
            },
        },
{
    let input = match codec::b64_decode(payload.i.as_str()) {
        Ok(v) => v,
        Err(_) => {
            return Err(ApiError::BadRequestDecode);
        },
    };
    register_start(identity, payload.id.as_str(), input.as_slice())
}

/// The locker registration-finish endpoint: decode the upload and the
/// secret blob, finish the registration, and hand back the row to persist.
pub fn register_locker_finish(payload: &RegisterLockerFinish) -> (r: Result<NewLocker, ApiError>)
    ensures
        match r {
            Ok(row) => {
                &&& codec::b64_decoded(payload.i@) is Some
                &&& codec::b64_decoded(payload.c@) is Some
                &&& opaque::password_file_of(codec::b64_decoded(payload.i@)->Some_0) is Some
                &&& row.email@ == payload.e@
                &&& row.locker_id@ == payload.id@
                &&& row.psswd_file@ == codec::b64_of(
                    opaque::password_file_of(codec::b64_decoded(payload.i@)->Some_0)->Some_0,
                )
                &&& row.ciphertext@ == codec::b64_of(codec::b64_decoded(payload.c@)->Some_0)
            },
            Err(e) => {
                &&& (e is BadRequestDecode <==> codec::b64_decoded(payload.i@) is None
                    || codec::b64_decoded(payload.c@) is None)
                &&& (e is UnknownLockerError <==> codec::b64_decoded(payload.i@) is Some
                    && codec::b64_decoded(payload.c@) is Some && opaque::password_file_of(
                    codec::b64_decoded(payload.i@)->Some_0,
                ) is None)
                &&& (e is BadRequestDecode || e is UnknownLockerError)
            },
        },
{
    let input = match codec::b64_decode(payload.i.as_str()) {
        Ok(v) => v,
        Err(_) => {
            return Err(ApiError::BadRequestDecode);
        },
    };
    let ciphertext = match codec::b64_decode(payload.c.as_str()) {
        Ok(v) => v,
        Err(_) => {
            return Err(ApiError::BadRequestDecode);
        },
    };
    register_finish(
        payload.id.as_str(),
        payload.e.as_str(),
        input.as_slice(),
        ciphertext.as_slice(),
    )
}

/// The locker open-start endpoint: decode the client message and start the
/// open handshake against the fetched locker row.
pub fn open_locker_start(
    identity: &ServerIdentity,
    cache: &mut EphemeralStateCache,
    payload: &OpenLockerStart,
    fetch: &LockerFetch,
) -> (r: Result<LockerResponse, ApiError>)
    ensures
        final(cache)@.bin == old(cache)@.bin,
        match r {
            Ok(resp) => {
                &&& codec::b64_decoded(payload.i@) is Some
                &&& *fetch matches LockerFetch::Found(l)
                &&& codec::b64_decoded(fetch->Found_0.psswd_file@) is Some
                &&& resp.id == 0
                &&& final(cache)@.pending.contains_key(resp.nonce)
                &&& final(cache)@.pending.remove(resp.nonce) == old(cache)@.pending.remove(
                    resp.nonce,
                )
            },
            Err(e) => {
                &&& final(cache)@.pending == old(cache)@.pending
                &&& (e is BadRequestDecode <==> codec::b64_decoded(payload.i@) is None)
                &&& (codec::b64_decoded(payload.i@) is Some ==> (e is LockerNotFound <==> *fetch
                    is Missing))
                &&& (e is BadRequestDecode || e is LockerNotFound || e is UnknownLockerError)
            },
        },
{
    let input = match codec::b64_decode(payload.i.as_str()) {
        Ok(v) => v,
        Err(_) => {
            return Err(ApiError::BadRequestDecode);
        },
    };
    open_start(identity, cache, payload.id.as_str(), fetch, input.as_slice())
}

/// The locker open-finish endpoint: decode the finalization and finish the
/// open handshake, sealing the stored secret for this transaction alone.
pub fn open_locker_finish(
    cache: &mut EphemeralStateCache,
    payload: &OpenLockerFinish,
    fetch: &LockerFetch,
) -> (r: Result<LockerResponse, ApiError>)
    ensures
        final(cache)@.bin == old(cache)@.bin,
        r is Ok <==> codec::b64_decoded(payload.i@) is Some && finish_accepted(
            old(cache)@,
            *fetch,
            codec::b64_decoded(payload.i@)->Some_0,
            payload.n,
        ),
        match r {
            Ok(resp) => {
                &&& final(cache)@.pending == old(cache)@.pending.remove(payload.n)
                &&& resp.id == 0
                &&& resp.nonce == payload.n
                &&& exists|sealed: Seq<u8>|
                    {
                        &&& sealed.len() == codec::b64_decoded(
                            fetch->Found_0.ciphertext@,
                        )->Some_0.len() + 28
                        &&& resp.output@ == codec::b64_of(sealed)
                    }
            },
            Err(e) => {
                &&& (e is BadRequestDecode <==> codec::b64_decoded(payload.i@) is None)
                &&& (codec::b64_decoded(payload.i@) is None ==> final(cache)@.pending == old(
                    cache,
                )@.pending)
                &&& (codec::b64_decoded(payload.i@) is Some ==> final(cache)@.pending == old(
                    cache,
                )@.pending.remove(payload.n))
                &&& (e is BadRequestDecode || e is LockerNotFound || e is UnknownLockerError)
            },
        },
{
    let input = match codec::b64_decode(payload.i.as_str()) {
        Ok(v) => v,
        Err(_) => {
            return Err(ApiError::BadRequestDecode);
        },
    };
    open_finish(cache, payload.id.as_str(), fetch, input.as_slice(), payload.n)
}

/// The locker delete-start endpoint: decode the client message and start
/// the possession-proof handshake that gates deletion.
pub fn delete_locker_start(
    identity: &ServerIdentity,
    cache: &mut EphemeralStateCache,
    payload: &DeleteLockerStart,
    fetch: &LockerFetch,
) -> (r: Result<LockerResponse, ApiError>)
    ensures
        final(cache)@.bin == old(cache)@.bin,
        match r {
            Ok(resp) => {
                &&& codec::b64_decoded(payload.i@) is Some
                &&& *fetch matches LockerFetch::Found(l)
                &&& codec::b64_decoded(fetch->Found_0.psswd_file@) is Some
                &&& resp.id == 0
                &&& final(cache)@.pending.contains_key(resp.nonce)
                &&& final(cache)@.pending.remove(resp.nonce) == old(cache)@.pending.remove(
                    resp.nonce,
                )
            },
            Err(e) => {
                &&& final(cache)@.pending == old(cache)@.pending
                &&& (e is BadRequestDecode <==> codec::b64_decoded(payload.i@) is None)
                &&& (codec::b64_decoded(payload.i@) is Some ==> (e is LockerNotFound <==> *fetch
                    is Missing))
                &&& (e is BadRequestDecode || e is LockerNotFound || e is UnknownLockerError)
            },
        },
{
    let input = match codec::b64_decode(payload.i.as_str()) {
        Ok(v) => v,
        Err(_) => {
            return Err(ApiError::BadRequestDecode);
        },
    };
    delete_start(identity, cache, payload.id.as_str(), fetch, input.as_slice())
}

/// The locker delete-finish endpoint: decode the finalization and run the
/// possession proof; only on success may the caller delete the persisted
/// row, and `delete_contents` then shapes the final response.
pub fn delete_locker_finish(
    cache: &mut EphemeralStateCache,
    payload: &DeleteLockerFinish,
    fetch: &LockerFetch,
) -> (r: Result<(), ApiError>)
    ensures
        final(cache)@.bin == old(cache)@.bin,
        r is Ok <==> codec::b64_decoded(payload.i@) is Some && finish_accepted(
            old(cache)@,
            *fetch,
            codec::b64_decoded(payload.i@)->Some_0,
            payload.n,
        ),
        codec::b64_decoded(payload.i@) is None ==> final(cache)@.pending == old(cache)@.pending,
        codec::b64_decoded(payload.i@) is Some ==> final(cache)@.pending == old(
            cache,
        )@.pending.remove(payload.n),
        r is Err ==> (r->Err_0 is BadRequestDecode <==> codec::b64_decoded(payload.i@) is None),
        r is Err ==> (r->Err_0 is BadRequestDecode || r->Err_0 is UnknownLockerError),
{
    let input = match codec::b64_decode(payload.i.as_str()) {
        Ok(v) => v,
        Err(_) => {
            return Err(ApiError::BadRequestDecode);
        },
    };
    delete_finish(cache, payload.id.as_str(), fetch, input.as_slice(), payload.n)
}

} // verus!
