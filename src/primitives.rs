//! The cryptographic primitives and the randomness that the core calls.
//!
//! Each function here is trusted: its body calls an outside crate and its
//! contract states what that crate's source shows.
use vstd::prelude::*;

use aes_gcm::aead::{Aead, Payload};
use aes_gcm::{Aes256Gcm, KeyInit};
use chacha20poly1305::ChaCha20Poly1305;
use hmac::{Hmac, Mac};
use rand::RngCore;
use sha2::Sha256;

verus! {

/// Longest plaintext (and associated data) that AES-256-GCM accepts, in bytes.
pub const AES_GCM_MAX_LEN: u64 = 68719476736;

/// ChaCha20-Poly1305 accepts a plaintext of fewer than this many bytes.
pub const CHACHA_MAX_LEN: u64 = 274877906880;

/// Length of the authentication tag that both AEADs append.
pub const AEAD_TAG_LEN: usize = 16;

/// Length of a symmetric key of either AEAD, and of an HMAC-SHA256 tag.
pub const KEY_LEN: usize = 32;

/// Length of a nonce of either AEAD.
pub const NONCE_LEN: usize = 12;

/// The error that both AEAD crates report.
#[verifier::external_type_specification]
#[verifier::external_body]
pub struct ExAeadError(aes_gcm::Error);

/// The error that a random number generator reports.
#[verifier::external_type_specification]
#[verifier::external_body]
pub struct ExRandError(rand::Error);

/// AES-256-GCM sealing of `pt` under `key` and `nonce` with associated data
/// `aad`: the ciphertext followed by its tag.
pub uninterp spec fn aes_gcm_seal(key: Seq<u8>, nonce: Seq<u8>, aad: Seq<u8>, pt: Seq<u8>) -> Seq<u8>;

/// ChaCha20-Poly1305 sealing of `pt` under `key` and `nonce` with associated
/// data `aad`: the ciphertext followed by its tag.
pub uninterp spec fn chacha_seal(key: Seq<u8>, nonce: Seq<u8>, aad: Seq<u8>, pt: Seq<u8>) -> Seq<u8>;

/// HMAC-SHA256 of `data` under `key`.
pub uninterp spec fn hmac_sha256(key: Seq<u8>, data: Seq<u8>) -> Seq<u8>;

/// Relies on `aes_gcm::Aes256Gcm::encrypt`: it fails only when the plaintext or
/// the associated data is longer than `P_MAX`/`A_MAX`, and otherwise returns
/// the ciphertext with a 16-byte tag appended.
#[verifier::external_body]
pub(crate) fn aes_gcm_encrypt(key: &[u8], nonce: &[u8], aad: &[u8], pt: &[u8]) -> (r: core::result::Result<Vec<u8>, aes_gcm::Error>)
    requires
        key@.len() == KEY_LEN,
        nonce@.len() == NONCE_LEN,
    ensures
        r is Ok <==> (pt@.len() <= AES_GCM_MAX_LEN && aad@.len() <= AES_GCM_MAX_LEN),
        r is Ok ==> r->Ok_0@ == aes_gcm_seal(key@, nonce@, aad@, pt@) && r->Ok_0@.len() == pt@.len()
            + AEAD_TAG_LEN,
{
    let cipher = Aes256Gcm::new(aes_gcm::Key::<Aes256Gcm>::from_slice(key));
    cipher.encrypt(aes_gcm::Nonce::from_slice(nonce), Payload { msg: pt, aad })
}

/// Relies on `aes_gcm::Aes256Gcm::decrypt`: it returns a plaintext only when
/// the tag matches, that is when the input is the sealing of that plaintext,
/// and then it returns exactly that plaintext.
#[verifier::external_body]
pub(crate) fn aes_gcm_decrypt(key: &[u8], nonce: &[u8], aad: &[u8], ct: &[u8]) -> (r: core::result::Result<Vec<u8>, aes_gcm::Error>)
    requires
        key@.len() == KEY_LEN,
        nonce@.len() == NONCE_LEN,
    ensures
        r is Ok ==> aes_gcm_seal(key@, nonce@, aad@, r->Ok_0@) == ct@,
        forall|p: Seq<u8>|
            #[trigger] aes_gcm_seal(key@, nonce@, aad@, p) == ct@ && p.len() <= AES_GCM_MAX_LEN
                && aad@.len() <= AES_GCM_MAX_LEN ==> r is Ok && r->Ok_0@ == p,
{
    let cipher = Aes256Gcm::new(aes_gcm::Key::<Aes256Gcm>::from_slice(key));
    cipher.decrypt(aes_gcm::Nonce::from_slice(nonce), Payload { msg: ct, aad })
}

/// Relies on `chacha20poly1305::ChaCha20Poly1305::encrypt`: it fails only when
/// the plaintext has 64 * (2^32 - 1) bytes or more, and otherwise returns the
/// ciphertext with a 16-byte tag appended.
#[verifier::external_body]
pub(crate) fn chacha_encrypt(key: &[u8], nonce: &[u8], aad: &[u8], pt: &[u8]) -> (r: core::result::Result<Vec<u8>, aes_gcm::Error>)
    requires
        key@.len() == KEY_LEN,
        nonce@.len() == NONCE_LEN,
    ensures
        r is Ok <==> pt@.len() < CHACHA_MAX_LEN,
        r is Ok ==> r->Ok_0@ == chacha_seal(key@, nonce@, aad@, pt@) && r->Ok_0@.len() == pt@.len()
            + AEAD_TAG_LEN,
{
    let cipher = ChaCha20Poly1305::new(chacha20poly1305::Key::from_slice(key));
    cipher.encrypt(chacha20poly1305::Nonce::from_slice(nonce), Payload { msg: pt, aad })
}

/// Relies on `chacha20poly1305::ChaCha20Poly1305::decrypt`: it returns a
/// plaintext only when the tag matches, that is when the input is the sealing
/// of that plaintext, and then it returns exactly that plaintext.
#[verifier::external_body]
pub(crate) fn chacha_decrypt(key: &[u8], nonce: &[u8], aad: &[u8], ct: &[u8]) -> (r: core::result::Result<Vec<u8>, aes_gcm::Error>)
    requires
        key@.len() == KEY_LEN,
        nonce@.len() == NONCE_LEN,
    ensures
        r is Ok ==> chacha_seal(key@, nonce@, aad@, r->Ok_0@) == ct@,
        forall|p: Seq<u8>|
            #[trigger] chacha_seal(key@, nonce@, aad@, p) == ct@ && p.len() < CHACHA_MAX_LEN
                ==> r is Ok && r->Ok_0@ == p,
{
    let cipher = ChaCha20Poly1305::new(chacha20poly1305::Key::from_slice(key));
    cipher.decrypt(chacha20poly1305::Nonce::from_slice(nonce), Payload { msg: ct, aad })
}

/// Relies on `hmac::Hmac::<sha2::Sha256>`: `new_from_slice` accepts a key of
/// any length, and `finalize` gives the 32-byte tag.
#[verifier::external_body]
pub(crate) fn hmac_sha256_tag(key: &[u8], data: &[u8]) -> (r: Vec<u8>)
    ensures
        r@ == hmac_sha256(key@, data@),
        r@.len() == KEY_LEN,
{
    match <Hmac<Sha256> as Mac>::new_from_slice(key) {
        Ok(mut mac) => {
            mac.update(data);
            mac.finalize().into_bytes().to_vec()
        },
        Err(_) => Vec::new(),
    }
}

/// Relies on `hmac::Mac::verify_slice` for `Hmac<Sha256>`: a constant-time
/// comparison that accepts exactly the tag that `finalize` would give, and
/// refuses a tag whose length is not the 32 bytes of the output.
#[verifier::external_body]
pub(crate) fn hmac_sha256_verify(key: &[u8], data: &[u8], tag: &[u8]) -> (r: bool)
    ensures
        r == (tag@ == hmac_sha256(key@, data@)),
        tag@.len() != KEY_LEN ==> !r,
{
    match <Hmac<Sha256> as Mac>::new_from_slice(key) {
        Ok(mut mac) => {
            mac.update(data);
            mac.verify_slice(tag).is_ok()
        },
        Err(_) => false,
    }
}

/// Relies on `rand::rngs::OsRng::try_fill_bytes`: the operating system's
/// generator either fills all `n` bytes or reports an error, and never
/// panics; nothing is known of the bytes' values.
#[verifier::external_body]
pub(crate) fn random_bytes(n: usize) -> (r: core::result::Result<Vec<u8>, rand::Error>)
    ensures
        r is Ok ==> r->Ok_0@.len() == n,
{
    let mut buf = vec![0u8; n];
    rand::rngs::OsRng.try_fill_bytes(&mut buf)?;
    Ok(buf)
}

} // verus!
