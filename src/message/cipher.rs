//! The calls into the authenticated cipher and the random source
use vstd::prelude::*;

use aes_gcm_siv::aead::{Aead, NewAead};
use aes_gcm_siv::Aes256GcmSiv;

verus! {

/// Length of the nonce that starts every packet
pub const NONCE_LEN: usize = 12;

/// Length of the authentication tag that ends every packet
pub const TAG_LEN: usize = 16;

/// Bound on message length: the cipher seals only messages shorter than this
/// (2^36 bytes), whose keystream fits its 32-bit block counter
pub const MAX_MESSAGE_LEN: u64 = 0x10_0000_0000;

/// Ciphertext and tag that AES-256-GCM-SIV makes of `msg` under `key` and
/// `nonce`, with no associated data
pub uninterp spec fn aead_sealed(key: Seq<u8>, nonce: Seq<u8>, msg: Seq<u8>) -> Seq<u8>;

/// Plaintext that AES-256-GCM-SIV recovers from `sealed` under `key` and
/// `nonce`, with no associated data; `None` where authentication fails
pub uninterp spec fn aead_opened(key: Seq<u8>, nonce: Seq<u8>, sealed: Seq<u8>) -> Option<Seq<u8>>;

/// Relies on `rand::random`, drawn from the thread-local generator: a fresh
/// nonce for each packet, of which nothing is known.
#[verifier::external_body]
pub(crate) fn fresh_nonce() -> (r: [u8; 12]) {
    rand::random()
}

/// Relies on `Aead::encrypt` of `Aes256GcmSiv`, keyed by `NewAead::new`, with no
/// associated data: a message shorter than 2^36 bytes passes its `P_MAX` check
/// and fits the keystream, the result is the ciphertext with a 16-byte tag
/// appended, and what it seals opens again under the same key and nonce. A
/// message of 2^36 bytes or more is never handed to it: at 2^36 the keystream
/// runs out and `apply_keystream` panics.
#[verifier::external_body]
pub(crate) fn aead_seal(key: &[u8; 32], nonce: &[u8; 12], msg: &[u8]) -> (r: Option<Vec<u8>>)
    requires
        msg@.len() < MAX_MESSAGE_LEN,
    ensures
        r is Some,
        r matches Some(c) ==> c@ == aead_sealed(key@, nonce@, msg@),
        r matches Some(c) ==> c@.len() == msg@.len() + TAG_LEN,
        r matches Some(c) ==> aead_opened(key@, nonce@, c@) == Some(msg@),
{
    let cipher = Aes256GcmSiv::new(aes_gcm_siv::Key::from_slice(&key[..]));
    cipher.encrypt(aes_gcm_siv::Nonce::from_slice(&nonce[..]), msg).ok()
}

/// Relies on `Aead::decrypt` of `Aes256GcmSiv`, keyed by `NewAead::new`, with no
/// associated data: nothing for fewer bytes than a tag; otherwise the bytes
/// before the 16-byte tag, deciphered, when the tag authenticates them, and
/// nothing when it does not. Its error carries nothing. A ciphertext of 2^36
/// bytes or more before its tag is never handed to it: the keystream would run
/// out and panic.
#[verifier::external_body]
pub(crate) fn aead_open(key: &[u8; 32], nonce: &[u8], sealed: &[u8]) -> (r: Option<Vec<u8>>)
    requires
        nonce@.len() == NONCE_LEN,
        sealed@.len() < MAX_MESSAGE_LEN + TAG_LEN,
    ensures
        sealed@.len() < TAG_LEN ==> r is None,
        r matches Some(m) ==> m@.len() + TAG_LEN == sealed@.len(),
        r matches Some(m) ==> aead_opened(key@, nonce@, sealed@) == Some(m@),
        r is None ==> aead_opened(key@, nonce@, sealed@) is None,
{
    let cipher = Aes256GcmSiv::new(aes_gcm_siv::Key::from_slice(&key[..]));
    cipher.decrypt(aes_gcm_siv::Nonce::from_slice(nonce), sealed).ok()
}

} // verus!
