//! The calls this library makes into cryptographic crates, the random number
//! generators and the system clock. Each item here is trusted: Verus takes
//! its contract as given. What a deterministic primitive computes is named
//! by a spec function without a body, and each wrapper ties its result to
//! that name applied to its arguments.

use aes_gcm::aead::{Aead, KeyInit, Payload};
use aes_gcm::{Aes256Gcm, Key, Nonce};
use hkdf::Hkdf;
use hmac::{Hmac, Mac};
use rand::RngCore;
use rand_core::OsRng;
use sha2::{Digest, Sha256};
use std::time::{Duration, SystemTime, SystemTimeError, UNIX_EPOCH};
use vstd::prelude::*;
use zeroize::Zeroize;

verus! {

/// The largest plaintext, and the largest associated data, that AES-GCM
/// in `aes_gcm` accepts: 2^36 bytes (`aes_gcm::P_MAX` and `aes_gcm::A_MAX`).
pub open spec fn gcm_max_len() -> nat {
    68719476736
}

/// What AES-256-GCM with a 96-bit nonce and a 128-bit tag computes for a
/// plaintext: the ciphertext followed by the tag.
pub uninterp spec fn aes256gcm_seal(key: Seq<u8>, nonce: Seq<u8>, aad: Seq<u8>, msg: Seq<u8>) -> Seq<u8>;

/// HKDF-SHA256 (RFC 5869): extract with `salt` from `ikm`, then expand with
/// `info` to `len` bytes.
pub uninterp spec fn hkdf_sha256(salt: Seq<u8>, ikm: Seq<u8>, info: Seq<u8>, len: nat) -> Seq<u8>;

/// HMAC-SHA256 (RFC 2104) of `msg` under `key`.
pub uninterp spec fn hmac_sha256(key: Seq<u8>, msg: Seq<u8>) -> Seq<u8>;

/// The SHA-256 digest of `data`.
pub uninterp spec fn sha256(data: Seq<u8>) -> Seq<u8>;

/// The X25519 function of RFC 7748 on byte strings: the u-coordinate of
/// the point with u-coordinate `u` multiplied by the clamped scalar `k`.
pub uninterp spec fn x25519(k: Seq<u8>, u: Seq<u8>) -> Seq<u8>;

/// The u-coordinate of the X25519 base point, 9
/// (`x25519_dalek::X25519_BASEPOINT_BYTES`).
pub open spec fn x25519_basepoint() -> Seq<u8> {
    seq![9u8] + Seq::new(31, |i: int| 0u8)
}

/// `std::time::SystemTime`, carried through opaquely.
#[verifier::external_type_specification]
#[verifier::external_body]
pub struct ExSystemTime(SystemTime);

/// `std::time::SystemTimeError`, carried through opaquely.
#[verifier::external_type_specification]
#[verifier::external_body]
pub struct ExSystemTimeError(SystemTimeError);

/// Seals `msg` with `aes_gcm::Aes256Gcm` (through `Aead::encrypt` with a
/// `Payload`). The crate refuses a plaintext or associated data longer than
/// 2^36 bytes and otherwise returns the ciphertext with the 16-byte tag
/// appended. Claimed: success exactly within those bounds, the result is the
/// named AES-256-GCM function of the arguments, and it is 16 bytes longer
/// than the plaintext.
#[verifier::external_body]
pub(crate) fn aes256gcm_encrypt(key: &[u8; 32], nonce: &[u8; 12], aad: &[u8], msg: &[u8]) -> (r: Option<Vec<u8>>)
    ensures
        r is Some <==> (msg@.len() <= gcm_max_len() && aad@.len() <= gcm_max_len()),
        r is Some ==> r->0@ == aes256gcm_seal(key@, nonce@, aad@, msg@),
        r is Some ==> r->0@.len() == msg@.len() + 16,
{
    let cipher = Aes256Gcm::new(Key::<Aes256Gcm>::from_slice(key));
    match cipher.encrypt(Nonce::from_slice(nonce), Payload { msg, aad }) {
        Ok(c) => Some(c),
        Err(_) => None,
    }
}

/// Opens `ct` with `aes_gcm::Aes256Gcm` (through `Aead::decrypt` with a
/// `Payload`). The crate recomputes the tag over the ciphertext and returns
/// the plaintext only when it matches. Claimed: a returned plaintext is one
/// that seals to `ct` under the same key, nonce and associated data, and
/// every plaintext within the crate's bounds that seals to `ct` is returned.
/// Unsaid: the outcome for a ciphertext whose plaintext would exceed 2^36
/// bytes.
#[verifier::external_body]
pub(crate) fn aes256gcm_decrypt(key: &[u8; 32], nonce: &[u8; 12], aad: &[u8], ct: &[u8]) -> (r: Option<Vec<u8>>)
    ensures
        r matches Some(m) ==> ct@ == aes256gcm_seal(key@, nonce@, aad@, m@),
        forall|m: Seq<u8>|
            m.len() <= gcm_max_len() && aad@.len() <= gcm_max_len() && ct@ == #[trigger] aes256gcm_seal(
                key@,
                nonce@,
                aad@,
                m,
            ) ==> (r is Some && r->0@ == m),
{
    let cipher = Aes256Gcm::new(Key::<Aes256Gcm>::from_slice(key));
    match cipher.decrypt(Nonce::from_slice(nonce), Payload { msg: ct, aad }) {
        Ok(m) => Some(m),
        Err(_) => None,
    }
}

/// Derives 32 bytes with `hkdf::Hkdf::<Sha256>::new(Some(salt), ikm)`
/// followed by `expand(info, ..)`. `expand` fails only when more than
/// 255 * 32 bytes are asked for, so for 32 bytes it succeeds. Claimed: it
/// succeeds and returns the named HKDF-SHA256 output for the arguments.
#[verifier::external_body]
pub(crate) fn hkdf_sha256_32(salt: &[u8], ikm: &[u8], info: &[u8]) -> (r: Option<[u8; 32]>)
    ensures
        r is Some,
        r matches Some(k) ==> k@ == hkdf_sha256(salt@, ikm@, info@, 32),
{
    let mut okm = [0u8; 32];
    match Hkdf::<Sha256>::new(Some(salt), ikm).expand(info, &mut okm) {
        Ok(()) => Some(okm),
        Err(_) => None,
    }
}

/// Computes an HMAC-SHA256 tag with `hmac::Hmac::<Sha256>`: `new_from_slice`
/// (which accepts keys of any length), one `update` with `data`, and
/// `finalize`. Claimed: the result is the named HMAC-SHA256 of the arguments.
#[verifier::external_body]
pub(crate) fn hmac_sha256_tag(key: &[u8; 32], data: &[u8]) -> (r: [u8; 32])
    ensures
        r@ == hmac_sha256(key@, data@),
{
    let mut mac = <Hmac<Sha256> as Mac>::new_from_slice(key).expect("HMAC accepts any key length");
    mac.update(data);
    mac.finalize().into_bytes().into()
}

/// `sha2::Sha256::digest`. Claimed: the result is the named SHA-256 digest.
#[verifier::external_body]
pub(crate) fn sha256_digest(data: &[u8]) -> (r: [u8; 32])
    ensures
        r@ == sha256(data@),
{
    Sha256::digest(data).into()
}

/// Overwrites the key with zeros through `zeroize::Zeroize::zeroize`.
/// Claimed: every byte is zero afterwards.
#[verifier::external_body]
pub(crate) fn zeroize_key(key: &mut [u8; 32])
    ensures
        final(key)@ == Seq::new(32, |i: int| 0u8),
{
    key.zeroize();
}

/// Sixteen bytes from `rand::thread_rng().fill_bytes`. Nothing is claimed
/// of them: they are random.
#[verifier::external_body]
pub(crate) fn random_nonce16() -> (r: [u8; 16]) {
    let mut nonce = [0u8; 16];
    rand::thread_rng().fill_bytes(&mut nonce);
    nonce
}

/// Thirty-two bytes from the operating system's generator,
/// `rand_core::OsRng.fill_bytes` (what `EphemeralSecret::random_from_rng`
/// does with `OsRng`). Nothing is claimed of them: they are random.
#[verifier::external_body]
pub(crate) fn os_random_secret() -> (r: [u8; 32]) {
    let mut secret = [0u8; 32];
    OsRng.fill_bytes(&mut secret);
    secret
}

/// `x25519_dalek::x25519(k, u)`. Claimed: the result is the named X25519
/// function of the arguments; for an all-zero `u` it is all zero (the
/// degenerate key agreement that `SharedSecret::was_contributory` warns
/// of); and when `u` is the public key `x25519(b, base)` of some secret `b`,
/// it equals `x25519(b, x25519(k, base))`, the value the holder of `b`
/// computes from the public key of `k`: both sides agree, as the crate's
/// documentation of `x25519` shows.
#[verifier::external_body]
pub(crate) fn x25519_scalar_mult(k: &[u8; 32], u: &[u8; 32]) -> (r: [u8; 32])
    ensures
        r@ == x25519(k@, u@),
        (forall|i: int| 0 <= i < 32 ==> u@[i] == 0) ==> (forall|i: int| 0 <= i < 32 ==> r@[i] == 0),
        forall|b: Seq<u8>|
            #![trigger x25519(b, x25519_basepoint())]
            (b.len() == 32 && u@ == x25519(b, x25519_basepoint())) ==> r@ == x25519(
                b,
                x25519(k@, x25519_basepoint()),
            ),
{
    x25519_dalek::x25519(*k, *u)
}

/// `std::time::SystemTime::now`. Nothing is claimed: it reads the clock.
#[verifier::external_body]
pub(crate) fn system_time_now() -> (r: SystemTime) {
    SystemTime::now()
}

/// `SystemTime::duration_since(UNIX_EPOCH)`. Nothing is claimed: the
/// result depends on the clock reading that `t` holds.
#[verifier::external_body]
pub(crate) fn duration_since_unix_epoch(t: &SystemTime) -> (r: Result<Duration, SystemTimeError>) {
    t.duration_since(UNIX_EPOCH)
}

/// `std::time::Duration::as_secs`. Nothing is claimed: the duration is
/// opaque here.
#[verifier::external_body]
pub(crate) fn duration_whole_secs(d: &Duration) -> (r: u64) {
    d.as_secs()
}

} // verus!
