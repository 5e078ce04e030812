//! The cryptographic primitives the protocol rests on: SHA-256, standard
//! base64, Ed25519 and the system's random source. Each is called through a
//! small function whose contract is taken on trust from the crate that
//! implements it; the spec functions without a body name what those crates
//! compute.

use base64::Engine;
use ed25519_dalek::Signer;
use ed25519_dalek::Verifier;
use rand::RngCore;
use sha2::Digest;
use vstd::prelude::*;

verus! {

/// Length in bytes of a SHA-256 digest.
pub const DIGEST_LEN: usize = 32;

/// Length in bytes of an Ed25519 secret or public key.
pub const KEY_LEN: usize = 32;

/// Length in bytes of an Ed25519 signature.
pub const SIGNATURE_LEN: usize = 64;

/// Length in bytes of a freshly drawn nonce.
pub const NONCE_LEN: usize = 16;

/// The SHA-256 digest of `data`.
pub uninterp spec fn sha256_digest(data: Seq<u8>) -> Seq<u8>;

/// The standard base64 text (RFC 4648 alphabet, padded) of `bytes`.
pub uninterp spec fn base64_text(bytes: Seq<u8>) -> Seq<char>;

/// The bytes that standard base64 text decodes to, or `None` where the text
/// is not accepted.
pub uninterp spec fn base64_decoded(text: Seq<char>) -> Option<Seq<u8>>;

/// The Ed25519 public key that belongs to the secret key `secret`.
pub uninterp spec fn ed25519_public_key(secret: Seq<u8>) -> Seq<u8>;

/// The Ed25519 signature of `message` under the secret key `secret`.
pub uninterp spec fn ed25519_signature(secret: Seq<u8>, message: Seq<u8>) -> Seq<u8>;

/// Whether the 32 bytes `public` are the encoding of a point of the curve,
/// and so usable as a public key.
pub uninterp spec fn ed25519_key_valid(public: Seq<u8>) -> bool;

/// Whether Ed25519 verification accepts `signature` for `message` under the
/// public key `public`.
pub uninterp spec fn ed25519_accepts(public: Seq<u8>, message: Seq<u8>, signature: Seq<u8>) -> bool;

/// Calls `sha2::Sha256::digest`. Trusted: the result is the SHA-256 digest of
/// the input, which is always 32 bytes long.
#[verifier::external_body]
pub(crate) fn sha256(data: &[u8]) -> (digest: Vec<u8>)
    ensures
        digest@ == sha256_digest(data@),
        digest@.len() == DIGEST_LEN,
{
    sha2::Sha256::digest(data).to_vec()
}

/// Calls `encode` of base64's `STANDARD` engine. Trusted: the result is the
/// standard base64 text of the input, and decoding that text gives the input
/// back. Inputs so long that the length of the text would not fit in `usize`
/// are left out, as the engine panics on them.
#[verifier::external_body]
pub(crate) fn base64_encode(bytes: &[u8]) -> (text: String)
    requires
        bytes@.len() <= usize::MAX / 2,
    ensures
        text@ == base64_text(bytes@),
        base64_decoded(text@) == Some(bytes@),
{
    base64::engine::general_purpose::STANDARD.encode(bytes)
}

/// Calls `decode` of base64's `STANDARD` engine. Trusted: the result is what
/// the text decodes to, `None` where the engine reports an error. The engine
/// demands canonical padding and refuses stray trailing bits, so a text it
/// accepts is exactly the encoding of the bytes it yields: no other text
/// decodes to the same bytes.
#[verifier::external_body]
pub(crate) fn base64_decode(text: &str) -> (bytes: Option<Vec<u8>>)
    ensures
        match bytes {
            Some(b) => base64_decoded(text@) == Some(b@) && forall|other: Seq<char>|
                base64_decoded(other) == Some(b@) ==> other == text@,
            None => base64_decoded(text@) is None,
        },
{
    base64::engine::general_purpose::STANDARD.decode(text).ok()
}

/// Calls `SigningKey::from_bytes` and `verifying_key` of ed25519-dalek.
/// Trusted: the result is the public key of the secret key, and it is the
/// encoding of a curve point.
#[verifier::external_body]
pub(crate) fn ed25519_derive_public(secret: &[u8; 32]) -> (public: [u8; 32])
    ensures
        public@ == ed25519_public_key(secret@),
        ed25519_key_valid(public@),
{
    ed25519_dalek::SigningKey::from_bytes(secret).verifying_key().to_bytes()
}

/// Calls `sign` of ed25519-dalek's `SigningKey`. Trusted: the result is the
/// (deterministic) signature of the message, and verification under the
/// matching public key accepts it.
#[verifier::external_body]
pub(crate) fn ed25519_sign(secret: &[u8; 32], message: &[u8]) -> (signature: [u8; 64])
    ensures
        signature@ == ed25519_signature(secret@, message@),
        ed25519_accepts(ed25519_public_key(secret@), message@, signature@),
{
    ed25519_dalek::SigningKey::from_bytes(secret).sign(message).to_bytes()
}

/// Calls `VerifyingKey::from_bytes` of ed25519-dalek. Trusted: the result
/// says whether the bytes decompress to a curve point.
#[verifier::external_body]
pub(crate) fn ed25519_check_key(public: &[u8; 32]) -> (ok: bool)
    ensures
        ok == ed25519_key_valid(public@),
{
    ed25519_dalek::VerifyingKey::from_bytes(public).is_ok()
}

/// Calls `verify` of ed25519-dalek's `VerifyingKey`, built from the key
/// bytes. Trusted: the result says whether verification accepts the
/// signature; bytes that are no usable key accept nothing.
#[verifier::external_body]
pub(crate) fn ed25519_verify(public: &[u8; 32], message: &[u8], signature: &[u8; 64]) -> (ok: bool)
    ensures
        ok == ed25519_accepts(public@, message@, signature@),
{
    match ed25519_dalek::VerifyingKey::from_bytes(public) {
        Ok(key) => key.verify(message, &ed25519_dalek::Signature::from_bytes(signature)).is_ok(),
        Err(_) => false,
    }
}

/// Calls `try_fill_bytes` of rand's `OsRng` on a zeroed buffer of `len`
/// bytes. Trusted: only the length of what comes back; `None` where the
/// system has no random bytes to give.
#[verifier::external_body]
pub(crate) fn random_bytes(len: usize) -> (bytes: Option<Vec<u8>>)
    ensures
        bytes matches Some(b) ==> b@.len() == len,
{
    let mut buffer = vec![0u8; len];
    match rand::rngs::OsRng.try_fill_bytes(&mut buffer) {
        Ok(()) => Some(buffer),
        Err(_) => None,
    }
}

/// The SHA-256 digest of a payload as base64 text: the form in which a
/// receipt names its input and its output.
pub fn hash_payload(data: &[u8]) -> (text: String)
    ensures
        text@ == base64_text(sha256_digest(data@)),
        base64_decoded(text@) == Some(sha256_digest(data@)),
        sha256_digest(data@).len() == DIGEST_LEN,
{
    let digest = sha256(data);
    base64_encode(digest.as_slice())
}

/// The 32 bytes of a slice as an array; `None` where the slice has another
/// length.
pub fn to_array_32(bytes: &[u8]) -> (array: Option<[u8; 32]>)
    ensures
        array is Some <==> bytes@.len() == 32,
        array matches Some(a) ==> a@ == bytes@,
{
    if bytes.len() != 32 {
        return None;
    }
    let mut array = [0u8; 32];
    let mut i: usize = 0;
    while i < 32
        invariant
            i <= 32,
            bytes@.len() == 32,
            forall|k: int| 0 <= k < i ==> array@[k] == bytes@[k],
        decreases 32 - i,
    {
        array[i] = bytes[i];
        i += 1;
    }
    assert(array@ =~= bytes@);
    Some(array)
}

/// The 64 bytes of a slice as an array; `None` where the slice has another
/// length.
pub fn to_array_64(bytes: &[u8]) -> (array: Option<[u8; 64]>)
    ensures
        array is Some <==> bytes@.len() == 64,
        array matches Some(a) ==> a@ == bytes@,
{
    if bytes.len() != 64 {
        return None;
    }
    let mut array = [0u8; 64];
    let mut i: usize = 0;
    while i < 64
        invariant
            i <= 64,
            bytes@.len() == 64,
            forall|k: int| 0 <= k < i ==> array@[k] == bytes@[k],
        decreases 64 - i,
    {
        array[i] = bytes[i];
        i += 1;
    }
    assert(array@ =~= bytes@);
    Some(array)
}

/// Whether two byte strings are the same.
pub fn bytes_equal(a: &[u8], b: &[u8]) -> (same: bool)
    ensures
        same == (a@ == b@),
{
    if a.len() != b.len() {
        return false;
    }
    let mut i: usize = 0;
    while i < a.len()
        invariant
            i <= a@.len(),
            a@.len() == b@.len(),
            forall|k: int| 0 <= k < i ==> a@[k] == b@[k],
        decreases a@.len() - i,
    {
        if a[i] != b[i] {
            return false;
        }
        i += 1;
    }
    assert(a@ =~= b@);
    true
}

/// Whether `text` is the base64 text of exactly `len` bytes.
pub open spec fn decodes_to_len(text: Seq<char>, len: nat) -> bool {
    base64_decoded(text) matches Some(b) && b.len() == len
}

/// Whether `text` is the base64 text of a nonce: of at least sixteen bytes.
pub open spec fn is_nonce_text(text: Seq<char>) -> bool {
    base64_decoded(text) matches Some(b) && b.len() >= NONCE_LEN
}

/// Decodes base64 text that must hold exactly `len` bytes.
pub fn decode_fixed(text: &str, len: usize) -> (bytes: Option<Vec<u8>>)
    ensures
        match bytes {
            Some(b) => base64_decoded(text@) == Some(b@) && b@.len() == len && forall|
                other: Seq<char>,
            | base64_decoded(other) == Some(b@) ==> other == text@,
            None => !decodes_to_len(text@, len as nat),
        },
{
    match base64_decode(text) {
        Some(b) => if b.len() == len {
            Some(b)
        } else {
            None
        },
        None => None,
    }
}

/// Whether `text` is the base64 text of a nonce.
pub fn check_nonce_text(text: &str) -> (ok: bool)
    ensures
        ok == is_nonce_text(text@),
{
    match base64_decode(text) {
        Some(b) => b.len() >= NONCE_LEN,
        None => false,
    }
}

} // verus!
