//! Symmetric sealing and randomness: the AEAD used to seal locker contents
//! and possession-proof challenges, the random transaction nonces, and the
//! big-endian byte form of a nonce.

use vstd::prelude::*;

use chacha20poly1305::aead::{Aead, NewAead};
use chacha20poly1305::{ChaCha20Poly1305, Key, Nonce};
use rand::RngCore;

verus! {

/// Largest plaintext this crate will seal; far below the AEAD's own limit,
/// so sealing never fails on an admitted input.
pub const MAX_SEAL_LEN: usize = 0x1000000;

/// The four bytes of a transaction nonce, most significant first.
pub open spec fn u32_be(n: u32) -> Seq<u8> {
    seq![
        ((n >> 24) & 0xff) as u8,
        ((n >> 16) & 0xff) as u8,
        ((n >> 8) & 0xff) as u8,
        (n & 0xff) as u8,
    ]
}

/// The big-endian byte form of a transaction nonce.
pub fn u32_to_be_bytes(n: u32) -> (r: Vec<u8>)
    ensures
        r@ == u32_be(n),
{
    let mut r: Vec<u8> = Vec::new();
    r.push(((n >> 24) & 0xff) as u8);
    r.push(((n >> 16) & 0xff) as u8);
    r.push(((n >> 8) & 0xff) as u8);
    r.push((n & 0xff) as u8);
    proof {
        assert(r@ =~= u32_be(n));
    }
    r
}

/// The AEAD sealing of a plaintext under a key, with the cipher nonce
/// derived from a transaction id: a function of its three arguments alone.
pub uninterp spec fn sealed_with_nonce(id: u32, key: Seq<u8>, plaintext: Seq<u8>) -> Seq<u8>;

/// Relies on chacha20poly1305::ChaCha20Poly1305: with a fixed cipher nonce
/// (the big-endian transaction id padded to 12 bytes) the ciphertext depends
/// on id, key and plaintext alone, and the appended tag is 16 bytes.
#[verifier::external_body]
pub fn encrypt_bytes_with_u32_nonce(id: &u32, key: &[u8], plaintext: &[u8]) -> (r: Vec<u8>)
    requires
        key@.len() >= 32,
        plaintext@.len() <= MAX_SEAL_LEN,
    ensures
        r@ == sealed_with_nonce(*id, key@, plaintext@),
        r@.len() == plaintext@.len() + 16,
{
    let cipher = ChaCha20Poly1305::new(Key::from_slice(&key[..32]));
    let mut nonce_bytes = [0u8; 12];
    nonce_bytes[..4].copy_from_slice(&id.to_be_bytes());
    let nonce = Nonce::from_slice(&nonce_bytes);
    cipher.encrypt(nonce, plaintext).unwrap()
}

/// Relies on chacha20poly1305::ChaCha20Poly1305 and rand's OsRng: a fresh
/// random 12-byte cipher nonce is drawn and prefixed to the ciphertext, and
/// the appended tag is 16 bytes, whatever nonce was drawn.
#[verifier::external_body]
pub fn encrypt_locker(key: &[u8], plaintext: &[u8]) -> (r: Vec<u8>)
    requires
        key@.len() >= 32,
        plaintext@.len() <= MAX_SEAL_LEN,
    ensures
        r@.len() == plaintext@.len() + 28,
{
    let cipher = ChaCha20Poly1305::new(Key::from_slice(&key[..32]));
    let mut nonce_bytes = [0u8; 12];
    rand::rngs::OsRng.fill_bytes(&mut nonce_bytes);
    let nonce = Nonce::from_slice(&nonce_bytes);
    let ciphertext = cipher.encrypt(nonce, plaintext).unwrap();
    [nonce_bytes.to_vec(), ciphertext].concat()
}

/// Relies on rand::random: a fresh transaction nonce; nothing is promised
/// of its value.
#[verifier::external_body]
pub fn create_nonce() -> u32 {
    rand::random::<u32>()
}

/// Relies on rand's OsRng: 32 fresh random bytes.
#[verifier::external_body]
pub fn rand_bytes() -> (r: Vec<u8>)
    ensures
        r@.len() == 32,
{
    let mut bytes = [0u8; 32];
    rand::rngs::OsRng.fill_bytes(&mut bytes);
    bytes.to_vec()
}

} // verus!
