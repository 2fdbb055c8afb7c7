//! The error taxonomy shared by every operation of the service.
//!
//! All cryptographic and persistence failures are mapped to one of these
//! kinds at the operation boundary; none of them may take the process down.

use vstd::prelude::*;

verus! {

/// Structured failure reported by every API surface.
#[derive(Debug, Clone)]
pub enum ApiError {
    /// A login step failed; the payload carries a short description.
    LoginError(String),
    /// The request carried no valid bearer token.
    NotAuthenticated,
    /// A confirmation key was supplied but is not valid.
    InvalidConfirmationKey(String),
    /// The request did not have the expected shape.
    InvalidRequest { expected: String },
    /// The request referred to state that does not exist (for example an
    /// expired or already-consumed transaction nonce).
    BadRequest,
    /// A field that should hold base64 could not be decoded.
    BadRequestDecode,
    /// A handshake message was malformed or cryptographically invalid.
    BadRequestProtocol,
    /// Registration could not be completed for the supplied key and email.
    BadConfirmationKeyOrWrongEmail,
    /// No locker row exists for the requested locker id.
    LockerNotFound(String),
    /// A locker operation failed in persistence or in the handshake.
    UnknownLockerError(String),
    /// An internal failure not otherwise classified.
    ServerError,
    /// An unclassified failure.
    UnknownError,
}

impl ApiError {
    /// The HTTP status code under which the transport reports this error.
    pub fn status_code(&self) -> (code: u16)
        ensures
            code == (match self {
                ApiError::LoginError(_) => 400u16,
                ApiError::NotAuthenticated => 401u16,
                ApiError::InvalidConfirmationKey(_) => 400u16,
                ApiError::InvalidRequest { .. } => 400u16,
                ApiError::BadRequest => 400u16,
                ApiError::BadRequestDecode => 400u16,
                ApiError::BadRequestProtocol => 400u16,
                ApiError::BadConfirmationKeyOrWrongEmail => 400u16,
                ApiError::LockerNotFound(_) => 404u16,
                ApiError::UnknownLockerError(_) => 500u16,
                ApiError::ServerError => 500u16,
                ApiError::UnknownError => 500u16,
            }),
    {
        match self {
            ApiError::LoginError(_) => 400,
            ApiError::NotAuthenticated => 401,
            ApiError::InvalidConfirmationKey(_) => 400,
            ApiError::InvalidRequest { .. } => 400,
            ApiError::BadRequest => 400,
            ApiError::BadRequestDecode => 400,
            ApiError::BadRequestProtocol => 400,
            ApiError::BadConfirmationKeyOrWrongEmail => 400,
            ApiError::LockerNotFound(_) => 404,
            ApiError::UnknownLockerError(_) => 500,
            ApiError::ServerError => 500,
            ApiError::UnknownError => 500,
        }
    }
}

} // verus!
