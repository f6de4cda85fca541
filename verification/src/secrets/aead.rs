//! XChaCha20-Poly1305 and random bytes, as the outside crates provide them.

use chacha20poly1305::aead::{Aead, Payload};
use chacha20poly1305::{Key, KeyInit, XChaCha20Poly1305, XNonce};
use rand::{Rng, RngCore};
use vstd::prelude::*;

verus! {

/// Bytes of an XChaCha20-Poly1305 key.
pub const KEY_LEN: usize = 32;

/// Bytes of an XChaCha20-Poly1305 nonce.
pub const NONCE_LEN: usize = 24;

/// Bytes of the authentication tag behind every ciphertext.
pub const TAG_LEN: usize = 16;

/// The longest message that the cipher's 32-bit block counter covers.
pub const MAX_MESSAGE_LEN: u64 = 0x3f_ffff_ff80;

/// Whether the cipher stops part-way through a message of `len` bytes: longer
/// than its keystream, yet short of the length that it refuses beforehand.
pub open spec fn exhausts_keystream(len: int) -> bool {
    MAX_MESSAGE_LEN < len < MAX_MESSAGE_LEN + 64
}

#[verifier::external_type_specification]
#[verifier::external_body]
pub struct ExAeadError(chacha20poly1305::Error);

/// The ciphertext and tag of `message` under `key`, `nonce` and associated
/// data `aad`.
pub uninterp spec fn aead_seal(
    key: Seq<u8>,
    nonce: Seq<u8>,
    aad: Seq<u8>,
    message: Seq<u8>,
) -> Seq<u8>;

/// The message in `ciphertext` under `key`, `nonce` and associated data `aad`,
/// or `None` where the tag does not verify.
pub uninterp spec fn aead_open(
    key: Seq<u8>,
    nonce: Seq<u8>,
    aad: Seq<u8>,
    ciphertext: Seq<u8>,
) -> Option<Seq<u8>>;

/// `Aead::encrypt` of an `XChaCha20Poly1305` with the key `key`. It refuses
/// exactly the messages that are too long. The ciphertext is determined by the
/// four arguments, is the length of a tag longer than the message, and opens
/// to the message again. That no other key, nonce or associated data opens it
/// is left unsaid.
#[verifier::external_body]
pub(crate) fn seal(key: &[u8], nonce: &[u8], aad: &[u8], message: &[u8]) -> (r: Result<
    Vec<u8>,
    chacha20poly1305::Error,
>)
    requires
        key@.len() == KEY_LEN,
        nonce@.len() == NONCE_LEN,
        !exhausts_keystream(message@.len() as int),
    ensures
        r is Ok <==> message@.len() <= MAX_MESSAGE_LEN,
        r matches Ok(c) ==> c@ == aead_seal(key@, nonce@, aad@, message@),
        r matches Ok(c) ==> c@.len() == message@.len() + TAG_LEN,
        r matches Ok(c) ==> aead_open(key@, nonce@, aad@, c@) == Some(message@),
{
    let key = <&Key>::try_from(key).unwrap();
    let nonce = <&XNonce>::try_from(nonce).unwrap();
    XChaCha20Poly1305::new(key).encrypt(nonce, Payload { msg: message, aad })
}

/// `Aead::decrypt` of an `XChaCha20Poly1305` with the key `key`. The outcome is
/// determined by the four arguments; a message is the length of a tag shorter
/// than its ciphertext.
#[verifier::external_body]
pub(crate) fn open(key: &[u8], nonce: &[u8], aad: &[u8], ciphertext: &[u8]) -> (r: Result<
    Vec<u8>,
    chacha20poly1305::Error,
>)
    requires
        key@.len() == KEY_LEN,
        nonce@.len() == NONCE_LEN,
        !exhausts_keystream(ciphertext@.len() - TAG_LEN),
    ensures
        r is Ok <==> aead_open(key@, nonce@, aad@, ciphertext@) is Some,
        r matches Ok(m) ==> aead_open(key@, nonce@, aad@, ciphertext@) == Some(m@),
        r matches Ok(m) ==> m@.len() + TAG_LEN == ciphertext@.len(),
{
    let key = <&Key>::try_from(key).unwrap();
    let nonce = <&XNonce>::try_from(nonce).unwrap();
    XChaCha20Poly1305::new(key).decrypt(nonce, Payload { msg: ciphertext, aad })
}

/// Whether `nonce` is drawn, at some time, from a thread's random generator.
pub uninterp spec fn nonce_drawn(nonce: Seq<u8>) -> bool;

/// Whether `number` is drawn, at some time, from a thread's random generator.
pub uninterp spec fn number_drawn(number: u64) -> bool;

/// `RngCore::fill_bytes` of the thread's generator `rand::rng()`: a nonce of
/// bytes that it drew. Which bytes they are is up to chance.
#[verifier::external_body]
pub(crate) fn random_nonce() -> (r: [u8; 24])
    ensures
        nonce_drawn(r@),
{
    let mut nonce = [0u8; 24];
    rand::rng().fill_bytes(&mut nonce);
    nonce
}

/// `Rng::random` of the thread's generator `rand::rng()`: a number that it
/// drew. Which number it is is up to chance.
#[verifier::external_body]
pub(crate) fn random_u64() -> (r: u64)
    ensures
        number_drawn(r),
{
    rand::rng().random()
}

} // verus!
