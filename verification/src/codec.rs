//! Byte-level framing shared by the handshake operations: base64 transport
//! encoding, the SHA-256 digest used by the possession proof, the
//! proof-of-intent challenge, and lossy UTF-8 recovery of cached strings.
//!
//! Each outside function is reached through exactly one trusted wrapper; the
//! value it computes is given a name so that the callers' contracts can speak
//! of it exactly.

use vstd::prelude::*;

use sha2::Digest;

verus! {

/// The UTF-8 bytes of a character sequence; what `str::as_bytes` yields.
pub open spec fn str_bytes(s: Seq<char>) -> Seq<u8> {
    vstd::utf8::encode_utf8(s)
}

/// The standard base64 encoding (with padding) of a byte sequence.
pub uninterp spec fn b64_of(bytes: Seq<u8>) -> Seq<char>;

/// What base64 decoding recovers from a character sequence, if anything.
pub uninterp spec fn b64_decoded(s: Seq<char>) -> Option<Seq<u8>>;

/// The SHA-256 digest of a byte sequence.
pub uninterp spec fn sha256_of(bytes: Seq<u8>) -> Seq<u8>;

/// The proof-of-intent challenge derived from a verifier
/// (SHA-256 followed by unpadded url-safe base64), as UTF-8 bytes.
pub uninterp spec fn code_challenge_of(verifier: Seq<u8>) -> Seq<u8>;

/// What lossy UTF-8 decoding makes of a byte sequence.
pub uninterp spec fn utf8_lossy_of(bytes: Seq<u8>) -> Seq<char>;

/// Relies on base64::encode: standard alphabet, padded output.
#[verifier::external_body]
pub(crate) fn b64_encode(bytes: &[u8]) -> (r: String)
    ensures
        r@ == b64_of(bytes@),
{
    base64::encode(bytes)
}

#[verifier::external_type_specification]
#[verifier::external_body]
pub struct ExDecodeError(base64::DecodeError);

/// Relies on base64::decode: deterministic, and the inverse of
/// base64::encode on every encoder output.
#[verifier::external_body]
pub(crate) fn b64_decode(s: &str) -> (r: Result<Vec<u8>, base64::DecodeError>)
    ensures
        r is Ok <==> b64_decoded(s@) is Some,
        r is Ok ==> r->Ok_0@ == b64_decoded(s@)->Some_0,
        forall|bytes: Seq<u8>| s@ == b64_of(bytes) ==> (r is Ok && r->Ok_0@ == bytes),
{
    base64::decode(s)
}

/// Relies on sha2::Sha256: a 32-byte digest that depends on the input alone.
#[verifier::external_body]
pub(crate) fn sha256(bytes: &[u8]) -> (r: Vec<u8>)
    ensures
        r@ == sha256_of(bytes@),
        r@.len() == 32,
{
    sha2::Sha256::digest(bytes).to_vec()
}

/// Relies on pkce::code_challenge: a challenge string that depends on the
/// verifier alone, returned here as its UTF-8 bytes.
#[verifier::external_body]
pub(crate) fn code_challenge(verifier: &[u8]) -> (r: Vec<u8>)
    ensures
        r@ == code_challenge_of(verifier@),
{
    pkce::code_challenge(verifier).into_bytes()
}

/// Relies on String::from_utf8_lossy: a recovery that depends on the input
/// bytes alone.
#[verifier::external_body]
pub(crate) fn bytes_to_string_lossy(bytes: &[u8]) -> (r: String)
    ensures
        r@ == utf8_lossy_of(bytes@),
{
    String::from_utf8_lossy(bytes).to_string()
}

/// Byte-sequence equality, decided without trusting any derived impl.
pub(crate) fn bytes_eq(a: &[u8], b: &[u8]) -> (r: bool)
    ensures
        r <==> a@ == b@,
{
    if a.len() != b.len() {
        proof {
            assert(a@ != b@);
        }
        return false;
    }
    let mut i: usize = 0;
    while i < a.len()
        invariant
            i <= a@.len(),
            a@.len() == b@.len(),
            forall|j: int| 0 <= j < i ==> a@[j] == b@[j],
        decreases a@.len() - i,
    {
        if a[i] != b[i] {
            return false;
        }
        i += 1;
    }
    proof {
        assert(a@ =~= b@);
    }
    true
}

} // verus!
