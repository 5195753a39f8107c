//! The Ed25519 primitive.
//!
//! Key derivation, signing and verification are done by the
//! `informalsystems_malachitebft_signing_ed25519` crate (over `ed25519_consensus`).
//! Nothing in this module is proved: each function below states, over byte
//! sequences, what the rest of the crate takes for granted about one call into
//! those crates.

use vstd::prelude::*;

verus! {

/// The 32-byte encoding of the public key that belongs to a 32-byte seed.
pub uninterp spec fn ed25519_public_key(seed: Seq<u8>) -> Seq<u8>;

/// The 64-byte signature that the key expanded from `seed` gives on `message`.
pub uninterp spec fn ed25519_signature(seed: Seq<u8>, message: Seq<u8>) -> Seq<u8>;

/// Whether 32 bytes decode to a point of the curve, which makes them a public key.
pub uninterp spec fn ed25519_key_is_valid(public_key: Seq<u8>) -> bool;

/// Whether `signature` passes verification on `message` under `public_key`.
pub uninterp spec fn ed25519_accepts(
    public_key: Seq<u8>,
    message: Seq<u8>,
    signature: Seq<u8>,
) -> bool;

/// Draws a fresh seed: `PrivateKey::generate` on `rand::thread_rng()`, the
/// thread-local cryptographically secure generator. Nothing is claimed of the
/// bytes. The generator panics at its first use on a thread if the operating
/// system cannot seed it.
#[verifier::external_body]
pub(crate) fn ed25519_generate_seed() -> (seed: [u8; 32]) {
    *informalsystems_malachitebft_signing_ed25519::PrivateKey::generate(rand::thread_rng())
        .inner()
        .as_bytes()
}

/// `PrivateKey::public_key`, on the key expanded from `seed`.
///
/// Claimed: the encoding depends on the seed alone, and it is the compressed
/// form of a curve point, so it decodes as a public key.
#[verifier::external_body]
pub(crate) fn ed25519_derive_public_key(seed: &[u8; 32]) -> (public_key: [u8; 32])
    ensures
        public_key@ == ed25519_public_key(seed@),
        ed25519_key_is_valid(public_key@),
{
    *informalsystems_malachitebft_signing_ed25519::PrivateKey::from(*seed).public_key().as_bytes()
}

/// `PrivateKey::sign`, on the key expanded from `seed`.
///
/// Claimed: signing is deterministic (the nonce is a hash of the expanded seed
/// and the message), and a signature made this way passes verification on the
/// same message under the public key of the same seed. The second claim is the
/// correctness of the scheme; it is taken on trust here.
#[verifier::external_body]
pub(crate) fn ed25519_sign(seed: &[u8; 32], message: &[u8]) -> (signature: [u8; 64])
    ensures
        signature@ == ed25519_signature(seed@, message@),
        ed25519_accepts(ed25519_public_key(seed@), message@, signature@),
{
    informalsystems_malachitebft_signing_ed25519::PrivateKey::from(*seed).sign(message).to_bytes()
}

/// `VerificationKey::try_from` of `ed25519_consensus`, which succeeds exactly on
/// the encodings of curve points. The signing crate's own constructor makes the
/// same call and panics where it fails, so the bytes are tested here first.
#[verifier::external_body]
pub(crate) fn ed25519_check_key(public_key: &[u8; 32]) -> (valid: bool)
    ensures
        valid == ed25519_key_is_valid(public_key@),
{
    ed25519_consensus::VerificationKey::try_from(*public_key).is_ok()
}

/// `PublicKey::verify`, on the key and the signature rebuilt from their bytes.
///
/// `PublicKey::from_bytes` panics on bytes that are no curve point, hence the
/// precondition. Claimed: the verdict depends on the three byte strings alone.
#[verifier::external_body]
pub(crate) fn ed25519_verify(public_key: &[u8; 32], message: &[u8], signature: &[u8; 64]) -> (accepted: bool)
    requires
        ed25519_key_is_valid(public_key@),
    ensures
        accepted == ed25519_accepts(public_key@, message@, signature@),
{
    informalsystems_malachitebft_signing_ed25519::PublicKey::from_bytes(*public_key)
        .verify(
            message,
            &informalsystems_malachitebft_signing_ed25519::Signature::from_bytes(*signature),
        )
        .is_ok()
}

} // verus!
