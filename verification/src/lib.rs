//! Server side of a PAKE-protected secrets-vault service.
//!
//! The crate holds the protocol orchestration and the ephemeral-state engine:
//! the multi-round registration and login handshakes, the per-transaction
//! state cache that correlates the two legs of each handshake, the
//! bearer-session issuance scheme, and the locker variant of the handshake
//! that gates access to stored secrets.  The PAKE primitive itself, AEAD
//! sealing, digests and base64 framing are supplied by outside crates behind
//! trusted wrappers; everything that sequences, caches and binds their
//! outputs is verified.

pub mod auth;
pub mod cache;
pub mod codec;
pub mod crypto;
pub mod errors;
pub mod locker;
pub mod opaque;
pub mod models;
pub mod requests;
