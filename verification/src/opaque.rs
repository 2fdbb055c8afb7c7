//! The PAKE engine: server-side registration and login handshakes, driven
//! through the OPAQUE implementation of an outside crate.
//!
//! The server's long-lived key material is carried in its serialized form,
//! exactly as it is persisted; every handshake call takes it together with
//! the serialized client message and hands back serialized bytes.  The
//! deterministic calls are given names so that callers' contracts can speak
//! of their results exactly; login-start draws server randomness, so nothing
//! is promised of its output.

use vstd::prelude::*;

verus! {

#[verifier::external_type_specification]
#[verifier::external_body]
pub struct ExNistP256(p256::NistP256);

#[verifier::external_type_specification]
#[verifier::external_body]
pub struct ExTripleDh(opaque_ke::key_exchange::tripledh::TripleDh);

#[verifier::external_type_specification]
#[verifier::external_body]
pub struct ExKsfIdentity(opaque_ke::ksf::Identity);

#[verifier::external_type_specification]
#[verifier::external_body]
#[verifier::reject_recursive_types(T)]
pub struct ExProtocolError<T>(opaque_ke::errors::ProtocolError<T>);

/// The OPAQUE cipher suite used by every handshake of this crate.
pub struct DefaultCipherSuite;

impl opaque_ke::CipherSuite for DefaultCipherSuite {
    type OprfCs = p256::NistP256;
    type KeGroup = p256::NistP256;
    type KeyExchange = opaque_ke::key_exchange::tripledh::TripleDh;
    type Ksf = opaque_ke::ksf::Identity;
}

/// Long-lived PAKE server key material, held in its serialized form.
/// Created once, persisted by the caller, immutable for the process
/// lifetime, and shared by all registrations and logins of all identities.
pub struct ServerIdentity {
    pub setup: Vec<u8>,
}

/// What server-side registration start answers for a serialized server
/// setup, a client registration request and a credential identifier, if it
/// answers at all: a function of the three alone.
pub uninterp spec fn registration_response_of(
    setup: Seq<u8>,
    request: Seq<u8>,
    id: Seq<u8>,
) -> Option<Seq<u8>>;

/// Relies on opaque_ke's ServerSetup::deserialize, RegistrationRequest::
/// deserialize and ServerRegistration::start: deterministic in the setup,
/// the request and the credential identifier.
#[verifier::external_body]
pub fn server_side_registration_start(
    identity: &ServerIdentity,
    request: &[u8],
    id: &[u8],
) -> (r: Result<Vec<u8>, opaque_ke::errors::ProtocolError>)
    ensures
        r is Ok <==> registration_response_of(identity.setup@, request@, id@) is Some,
        r is Ok ==> r->Ok_0@ == registration_response_of(identity.setup@, request@, id@)->Some_0,
{
    let setup = opaque_ke::ServerSetup::<DefaultCipherSuite>::deserialize(&identity.setup)?;
    let request = opaque_ke::RegistrationRequest::<DefaultCipherSuite>::deserialize(request)?;
    let result = opaque_ke::ServerRegistration::<DefaultCipherSuite>::start(&setup, request, id)?;
    Ok(result.message.serialize().to_vec())
}

/// The password file that finishes a client registration upload, if the
/// upload deserializes: a pure function of the upload bytes.
pub uninterp spec fn password_file_of(upload: Seq<u8>) -> Option<Seq<u8>>;

/// Relies on opaque_ke's RegistrationUpload::deserialize and
/// ServerRegistration::finish: a pure function of the client's upload; the
/// start-side state is not needed.
#[verifier::external_body]
pub fn server_side_registration_finish(upload: &[u8]) -> (r: Result<
    Vec<u8>,
    opaque_ke::errors::ProtocolError,
>)
    ensures
        r is Ok <==> password_file_of(upload@) is Some,
        r is Ok ==> r->Ok_0@ == password_file_of(upload@)->Some_0,
{
    let upload = opaque_ke::RegistrationUpload::<DefaultCipherSuite>::deserialize(upload)?;
    let file = opaque_ke::ServerRegistration::<DefaultCipherSuite>::finish(upload);
    Ok(file.serialize().to_vec())
}

/// Relies on opaque_ke's ServerLogin::start with OsRng: the credential
/// response and the server login state depend on server randomness, so
/// nothing is promised of the returned pair (message, state).
#[verifier::external_body]
pub fn login_start(
    identity: &ServerIdentity,
    password_file: &[u8],
    request: &[u8],
    id: &[u8],
) -> Result<(Vec<u8>, Vec<u8>), opaque_ke::errors::ProtocolError> {
    let setup = opaque_ke::ServerSetup::<DefaultCipherSuite>::deserialize(&identity.setup)?;
    let file = opaque_ke::ServerRegistration::<DefaultCipherSuite>::deserialize(password_file)?;
    let request = opaque_ke::CredentialRequest::<DefaultCipherSuite>::deserialize(request)?;
    let result = opaque_ke::ServerLogin::start(
        &mut opaque_ke::rand::rngs::OsRng,
        &setup,
        Some(file),
        request,
        id,
        opaque_ke::ServerLoginStartParameters::default(),
    )?;
    Ok((result.message.serialize().to_vec(), result.state.serialize().to_vec()))
}

/// The session key that finishes a login, if the serialized server state
/// and the client's credential finalization agree: a function of the two
/// alone.  Agreement fails exactly on a wrong password, a tampered message
/// or a mismatched identity binding.
pub uninterp spec fn session_key_of(state: Seq<u8>, finalization: Seq<u8>) -> Option<Seq<u8>>;

/// Relies on opaque_ke's ServerLogin::deserialize, CredentialFinalization::
/// deserialize and ServerLogin::finish: deterministic in the serialized
/// state and the finalization; the session key is the 32-byte output of the
/// suite's hash.
#[verifier::external_body]
pub fn login_finish(state: &[u8], finalization: &[u8]) -> (r: Result<
    Vec<u8>,
    opaque_ke::errors::ProtocolError,
>)
    ensures
        r is Ok <==> session_key_of(state@, finalization@) is Some,
        r is Ok ==> r->Ok_0@ == session_key_of(state@, finalization@)->Some_0,
        r is Ok ==> r->Ok_0@.len() == 32,
{
    let state = opaque_ke::ServerLogin::<DefaultCipherSuite>::deserialize(state)?;
    let fin = opaque_ke::CredentialFinalization::<DefaultCipherSuite>::deserialize(finalization)?;
    Ok(state.finish(fin)?.session_key.to_vec())
}

} // verus!
