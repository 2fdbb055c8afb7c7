//! Request payloads of the API endpoints.
//!
//! Handshake messages cross the boundary as base64-encoded opaque byte
//! strings; their internal structure belongs to the PAKE primitive.

use vstd::prelude::*;

verus! {

/// Start a user registration: email, client message, proof-of-intent challenge.
#[derive(Debug)]
pub struct RegisterStart {
    pub e: String,
    pub i: String,
    pub c: String,
}

/// Finish a user registration: transaction id, email, upload, challenge verifier.
#[derive(Debug)]
pub struct RegisterFinish {
    pub id: u32,
    pub e: String,
    pub i: String,
    pub v: String,
}

/// Start a user login: email and client message.
#[derive(Debug)]
pub struct LoginStart {
    pub e: String,
    pub i: String,
}

/// Finish a user login: transaction id, email, credential finalization.
#[derive(Debug)]
pub struct LoginFinish {
    pub id: u32,
    pub e: String,
    pub i: String,
}

/// Prove possession of the session key: transaction id and proof hash.
#[derive(Debug)]
pub struct LoginVerify {
    pub id: u32,
    pub i: String,
}

/// Start a locker registration: locker id, owner email, client message.
#[derive(Debug)]
pub struct RegisterLockerStart {
    pub id: String,
    pub e: String,
    pub i: String,
}

/// Finish a locker registration: locker id, owner email, upload, secret blob.
#[derive(Debug)]
pub struct RegisterLockerFinish {
    pub id: String,
    pub e: String,
    pub i: String,
    pub c: String,
}

/// Start opening a locker: locker id, owner email, client message.
#[derive(Debug)]
pub struct OpenLockerStart {
    pub id: String,
    pub e: String,
    pub i: String,
}

/// Finish opening a locker: locker id, owner email, finalization, nonce.
#[derive(Debug)]
pub struct OpenLockerFinish {
    pub id: String,
    pub e: String,
    pub i: String,
    pub n: u32,
}

/// Start deleting a locker: locker id, owner email, client message.
#[derive(Debug)]
pub struct DeleteLockerStart {
    pub id: String,
    pub e: String,
    pub i: String,
}

/// Finish deleting a locker: locker id, owner email, finalization, nonce.
#[derive(Debug)]
pub struct DeleteLockerFinish {
    pub id: String,
    pub e: String,
    pub i: String,
    pub n: u32,
}

} // verus!
