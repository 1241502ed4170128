//! The cryptographic primitives, taken from outside crates.
//!
//! Each function here hands one operation to an outside crate and states,
//! without proof, what comes back. What a primitive computes is not spelled
//! out: it is given a name, and the rest of the library reasons about the
//! names. Keys, nonces and signatures cross this boundary as plain bytes.

use vstd::prelude::*;
use aes_gcm::aead::Aead;
use aes_gcm::{Aes256Gcm, NewAead};
use ed25519_dalek::{Keypair, SecretKey, Signer, Verifier};
use hkdf::Hkdf;
use rand::rngs::OsRng;
use rand::RngCore;
use sha2::{Digest, Sha256};
use x25519_dalek::StaticSecret;

verus! {

/// Length of an AES-GCM authentication tag in bytes.
pub const AEAD_TAG_LEN: usize = 16;

/// Longest plaintext that AES-GCM seals under one nonce, in bytes: 2^36 - 32,
/// the most that its 32-bit block counter reaches.
pub const AEAD_MAX_PLAINTEXT: u64 = 0xF_FFFF_FFE0;

/// Longest ciphertext with tag that AES-GCM opens, in bytes.
pub const AEAD_MAX_SEALED: u64 = 0xF_FFFF_FFF0;

/// AES-256-GCM ciphertext and tag of `plaintext` under `key` and `nonce`,
/// without associated data.
pub uninterp spec fn aead_seal(key: Seq<u8>, nonce: Seq<u8>, plaintext: Seq<u8>) -> Seq<u8>;

/// The plaintext that AES-256-GCM recovers from `sealed` under `key` and
/// `nonce`; `None` where the tag does not match.
pub uninterp spec fn aead_open(key: Seq<u8>, nonce: Seq<u8>, sealed: Seq<u8>) -> Option<Seq<u8>>;

/// The Ed25519 public key that belongs to the secret key `secret`.
pub uninterp spec fn ed25519_public(secret: Seq<u8>) -> Seq<u8>;

/// The Ed25519 signature of `message` under the secret key `secret`.
pub uninterp spec fn ed25519_signature(secret: Seq<u8>, message: Seq<u8>) -> Seq<u8>;

/// Whether `signature` is a valid Ed25519 signature of `message` under the
/// public key `public`.
pub uninterp spec fn ed25519_accepts(public: Seq<u8>, message: Seq<u8>, signature: Seq<u8>) -> bool;

/// The X25519 public key that belongs to the secret key `secret`.
pub uninterp spec fn x25519_public(secret: Seq<u8>) -> Seq<u8>;

/// The X25519 shared secret of the secret key `secret` and a peer's public
/// key `peer`.
pub uninterp spec fn x25519_shared(secret: Seq<u8>, peer: Seq<u8>) -> Seq<u8>;

/// The 32 bytes that HKDF over SHA-256 derives from the input key material
/// `ikm` without salt, under the context `info`.
pub uninterp spec fn hkdf_sha256(ikm: Seq<u8>, info: Seq<u8>) -> Seq<u8>;

/// The SHA-256 digest of `data`.
pub uninterp spec fn sha256_digest(data: Seq<u8>) -> Seq<u8>;

/// Fills a fresh key from the operating system's random source with
/// `RngCore::fill_bytes` on rand's `OsRng`. Nothing is claimed of the bytes.
/// Where the operating system has no randomness to give, `OsRng` ends the
/// process.
#[verifier::external_body]
pub(crate) fn random_key() -> (key: [u8; 32]) {
    let mut key = [0u8; 32];
    OsRng.fill_bytes(&mut key);
    key
}

/// Seals `plaintext` with `Aes256Gcm::encrypt` of crate aes-gcm. The
/// plaintext must stay within the reach of the cipher's block counter, beyond
/// which the crate gives up. Within it the call succeeds, its result is the
/// plaintext's length plus the tag, and opening that result under the same
/// key and nonce gives the plaintext back.
#[verifier::external_body]
pub(crate) fn aes256_gcm_seal(key: &[u8; 32], nonce: &[u8; 12], plaintext: &[u8]) -> (sealed:
    Option<Vec<u8>>)
    requires
        plaintext@.len() <= AEAD_MAX_PLAINTEXT,
    ensures
        sealed is Some,
        sealed matches Some(bytes) ==> bytes@ == aead_seal(key@, nonce@, plaintext@),
        sealed matches Some(bytes) ==> bytes@.len() == plaintext@.len() + AEAD_TAG_LEN,
        sealed matches Some(bytes) ==> aead_open(key@, nonce@, bytes@) == Some(plaintext@),
{
    Aes256Gcm::new(key.into()).encrypt(nonce.into(), plaintext).ok()
}

/// Opens `sealed` with `Aes256Gcm::decrypt` of crate aes-gcm, which hands the
/// plaintext back only where the tag matches. What is to be opened must stay
/// within the reach of the cipher's block counter, beyond which the crate
/// gives up.
#[verifier::external_body]
pub(crate) fn aes256_gcm_open(key: &[u8; 32], nonce: &[u8; 12], sealed: &[u8]) -> (opened: Option<
    Vec<u8>,
>)
    requires
        sealed@.len() <= AEAD_MAX_SEALED,
    ensures
        match opened {
            Some(bytes) => aead_open(key@, nonce@, sealed@) == Some(bytes@),
            None => aead_open(key@, nonce@, sealed@) is None,
        },
{
    Aes256Gcm::new(key.into()).decrypt(nonce.into(), sealed).ok()
}

/// Draws a fresh Ed25519 secret key with `SecretKey::generate` of crate
/// ed25519-dalek, from `OsRng`. Nothing is claimed of the bytes.
#[verifier::external_body]
pub(crate) fn ed25519_new_secret() -> (secret: [u8; 32]) {
    SecretKey::generate(&mut OsRng).to_bytes()
}

/// Derives the public key of `secret` with ed25519-dalek's conversion from
/// `SecretKey` to `PublicKey`. Any 32 bytes are a secret key, so there always
/// is a public key.
#[verifier::external_body]
pub(crate) fn ed25519_public_key(secret: &[u8; 32]) -> (public: Option<[u8; 32]>)
    ensures
        public is Some,
        public matches Some(bytes) ==> bytes@ == ed25519_public(secret@),
{
    let secret = SecretKey::from_bytes(secret).ok()?;
    Some(ed25519_dalek::PublicKey::from(&secret).to_bytes())
}

/// Signs `message` with `Signer::sign` on an ed25519-dalek `Keypair` built
/// from `secret` and its public key. Signing is deterministic and always
/// succeeds, and the signature is valid under the public key of `secret`.
#[verifier::external_body]
pub(crate) fn ed25519_sign(secret: &[u8; 32], message: &[u8]) -> (signature: Option<[u8; 64]>)
    ensures
        signature is Some,
        signature matches Some(bytes) ==> bytes@ == ed25519_signature(secret@, message@),
        signature matches Some(bytes) ==> ed25519_accepts(
            ed25519_public(secret@),
            message@,
            bytes@,
        ),
{
    let secret = SecretKey::from_bytes(secret).ok()?;
    let public = ed25519_dalek::PublicKey::from(&secret);
    Some(Keypair { secret, public }.sign(message).to_bytes())
}

/// Checks `signature` with `Verifier::verify` on an ed25519-dalek
/// `PublicKey`. Bytes that are no public key or no signature are not
/// accepted.
#[verifier::external_body]
pub(crate) fn ed25519_verify(public: &[u8; 32], message: &[u8], signature: &[u8; 64]) -> (accepted:
    bool)
    ensures
        accepted == ed25519_accepts(public@, message@, signature@),
{
    match (
        ed25519_dalek::PublicKey::from_bytes(public),
        ed25519_dalek::Signature::from_bytes(signature),
    ) {
        (Ok(public), Ok(signature)) => public.verify(message, &signature).is_ok(),
        _ => false,
    }
}

/// Draws a fresh X25519 secret key with `StaticSecret::new` of crate
/// x25519-dalek, from `OsRng`. Nothing is claimed of the bytes.
#[verifier::external_body]
pub(crate) fn x25519_new_secret() -> (secret: [u8; 32]) {
    StaticSecret::new(OsRng).to_bytes()
}

/// Derives the public key of `secret` with x25519-dalek's conversion from
/// `StaticSecret` to `PublicKey`.
#[verifier::external_body]
pub(crate) fn x25519_public_key(secret: &[u8; 32]) -> (public: [u8; 32])
    ensures
        public@ == x25519_public(secret@),
{
    x25519_dalek::PublicKey::from(&StaticSecret::from(*secret)).to_bytes()
}

/// Agrees on a shared secret with `StaticSecret::diffie_hellman` of crate
/// x25519-dalek. Where `peer` is the public key of some secret key, the
/// holder of that key arrives at the same shared secret from the public key
/// of `secret`.
#[verifier::external_body]
pub(crate) fn x25519_agree(secret: &[u8; 32], peer: &[u8; 32]) -> (shared: [u8; 32])
    ensures
        shared@ == x25519_shared(secret@, peer@),
        forall|other: Seq<u8>|
            other.len() == 32 && peer@ == #[trigger] x25519_public(other) ==> shared@
                == x25519_shared(other, x25519_public(secret@)),
{
    let peer = x25519_dalek::PublicKey::from(*peer);
    StaticSecret::from(*secret).diffie_hellman(&peer).to_bytes()
}

/// Derives 32 bytes with `Hkdf::<Sha256>::new` and `Hkdf::expand` of crate
/// hkdf, without salt. The crate refuses only outputs longer than 255
/// digests, so for 32 bytes there always is a key.
#[verifier::external_body]
pub(crate) fn hkdf_sha256_key(ikm: &[u8], info: &[u8]) -> (key: Option<[u8; 32]>)
    ensures
        key is Some,
        key matches Some(bytes) ==> bytes@ == hkdf_sha256(ikm@, info@),
{
    let mut key = [0u8; 32];
    Hkdf::<Sha256>::new(None, ikm).expand(info, &mut key).ok()?;
    Some(key)
}

/// Hashes `data` with `Sha256` of crate sha2.
#[verifier::external_body]
pub(crate) fn sha256(data: &[u8]) -> (digest: [u8; 32])
    ensures
        digest@ == sha256_digest(data@),
{
    let mut hasher = Sha256::new();
    hasher.update(data);
    hasher.finalize().into()
}

} // verus!
