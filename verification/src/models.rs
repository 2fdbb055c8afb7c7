//! Records owned by the persistence collaborator, and the outcomes it
//! reports back to the verified operations.
//!
//! Storage itself (a relational database in a deployment) lives outside
//! this crate; the operations here receive the fetched rows and the store
//! outcomes as plain values.  Timestamps are carried as microsecond counts.

use vstd::prelude::*;

verus! {

/// A registered user as persisted: the password file is the server-held
/// PAKE registration record, base64-encoded.
#[derive(Debug, Clone)]
pub struct User {
    pub id: i32,
    pub email: String,
    pub psswd_file: String,
    pub deleted: bool,
    pub inserted_at: i64,
    pub updated_at: i64,
}

/// A user row to be inserted by the persistence collaborator.
#[derive(Debug, Clone)]
pub struct NewUser {
    pub email: String,
    pub psswd_file: String,
}

/// A locker row as persisted: an independently PAKE-protected secret blob.
/// Password file and ciphertext are base64-encoded.
#[derive(Debug, Clone)]
pub struct Locker {
    pub id: i32,
    pub email: String,
    pub locker_id: String,
    pub psswd_file: String,
    pub ciphertext: String,
    pub inserted_at: i64,
    pub updated_at: i64,
}

/// A locker row to be inserted by the persistence collaborator.
#[derive(Debug, Clone)]
pub struct NewLocker {
    pub email: String,
    pub locker_id: String,
    pub psswd_file: String,
    pub ciphertext: String,
}

/// What a lookup of a user row reported.
#[derive(Debug)]
pub enum UserFetch {
    /// A non-deleted row exists for the email.
    Found(User),
    /// No row exists for the email.
    Missing,
    /// The store failed to answer.
    Failure,
}

/// What a lookup of a locker row reported.
#[derive(Debug)]
pub enum LockerFetch {
    /// A row exists for the owner and locker id.
    Found(Locker),
    /// No row exists for the owner and locker id.
    Missing,
    /// The store failed to answer.
    Failure,
}

/// What storing a new user row reported.
#[derive(Debug)]
pub enum StoreUserOutcome {
    /// The row was created.
    Created,
    /// A row with the same email already exists.
    DuplicateEmail,
    /// The store failed for another reason.
    Failure,
}

/// What storing a new locker row reported.
#[derive(Debug)]
pub enum StoreLockerOutcome {
    /// The row was created.
    Stored,
    /// The store refused the row (for example a duplicate locker id).
    Failure,
}

/// What deleting a locker row reported.
#[derive(Debug)]
pub enum DeleteOutcome {
    /// The row is gone.
    Deleted,
    /// The store failed to delete it.
    Failure,
}

} // verus!
