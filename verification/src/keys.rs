//! Keys and signatures as fixed-width byte values.

use vstd::prelude::*;
use crate::primitive::ed25519_check_key;
use crate::primitive::ed25519_key_is_valid;

verus! {

/// Number of bytes in a signature.
pub const SIGNATURE_LENGTH: usize = 64;

/// The secret seed from which the signing key is expanded.
///
/// Its view is the seed as a byte sequence of length 32.
#[derive(Clone, Debug)]
pub struct PrivateKey {
    seed: [u8; 32],
}

impl View for PrivateKey {
    type V = Seq<u8>;

    closed spec fn view(&self) -> Seq<u8> {
        self.seed@
    }
}

impl PrivateKey {
    /// Takes the given seed as a private key. Every seed is a key.
    pub fn from_bytes(seed: [u8; 32]) -> (key: PrivateKey)
        ensures
            key@ == seed@,
    {
        PrivateKey { seed }
    }

    /// The seed, for the signing primitive alone.
    pub(crate) fn seed(&self) -> (seed: &[u8; 32])
        ensures
            seed@ == self@,
    {
        &self.seed
    }

    /// A private key is 32 bytes long.
    pub proof fn lemma_length(self)
        ensures
            self@.len() == 32,
    {
    }
}

/// An encoded public key: 32 bytes that decode to a point of the curve.
///
/// Its view is the encoding as a byte sequence of length 32.
#[derive(Clone, Copy, Debug, PartialEq, Eq, Hash)]
pub struct PublicKey {
    bytes: [u8; 32],
}

impl View for PublicKey {
    type V = Seq<u8>;

    closed spec fn view(&self) -> Seq<u8> {
        self.bytes@
    }
}

impl PublicKey {
    /// Every public key decodes to a point of the curve.
    #[verifier::type_invariant]
    spec fn decodes(self) -> bool {
        ed25519_key_is_valid(self.bytes@)
    }

    /// Takes 32 bytes as a public key if they decode to a point of the curve.
    pub fn from_bytes(bytes: [u8; 32]) -> (key: Option<PublicKey>)
        ensures
            key is Some <==> ed25519_key_is_valid(bytes@),
            key matches Some(k) ==> k@ == bytes@,
    {
        if ed25519_check_key(&bytes) {
            Some(PublicKey { bytes })
        } else {
            None
        }
    }

    /// Wraps bytes that are known to decode.
    pub(crate) fn from_valid_bytes(bytes: [u8; 32]) -> (key: PublicKey)
        requires
            ed25519_key_is_valid(bytes@),
        ensures
            key@ == bytes@,
    {
        PublicKey { bytes }
    }

    /// The encoding of the key.
    pub fn to_bytes(&self) -> (bytes: [u8; 32])
        ensures
            bytes@ == self@,
    {
        self.bytes
    }

    /// The encoding of the key, borrowed. It decodes to a point of the curve.
    pub fn as_bytes(&self) -> (bytes: &[u8; 32])
        ensures
            bytes@ == self@,
            ed25519_key_is_valid(bytes@),
    {
        proof {
            use_type_invariant(self);
        }
        &self.bytes
    }

    /// An encoded public key is 32 bytes long.
    pub proof fn lemma_length(self)
        ensures
            self@.len() == 32,
    {
    }

    /// Two public keys with the same encoding are the same key.
    pub proof fn lemma_view_injective(self, other: PublicKey)
        requires
            self@ == other@,
        ensures
            self == other,
    {
        assert(self.bytes =~= other.bytes);
    }
}

/// A signature: 64 bytes, of which nothing is checked until it is verified.
///
/// Its view is the signature as a byte sequence of length 64.
#[derive(Clone, Copy, Debug, PartialEq, Eq, Hash)]
pub struct Signature {
    bytes: [u8; 64],
}

impl View for Signature {
    type V = Seq<u8>;

    closed spec fn view(&self) -> Seq<u8> {
        self.bytes@
    }
}

impl Signature {
    /// Takes the given bytes as a signature. Every 64 bytes are one.
    pub fn from_bytes(bytes: [u8; 64]) -> (signature: Signature)
        ensures
            signature@ == bytes@,
    {
        Signature { bytes }
    }

    /// The bytes of the signature.
    pub fn to_bytes(&self) -> (bytes: [u8; 64])
        ensures
            bytes@ == self@,
    {
        self.bytes
    }

    /// The bytes of the signature, borrowed.
    pub(crate) fn as_bytes(&self) -> (bytes: &[u8; 64])
        ensures
            bytes@ == self@,
    {
        &self.bytes
    }

    /// A signature is 64 bytes long.
    pub proof fn lemma_length(self)
        ensures
            self@.len() == 64,
    {
    }

    /// Two signatures with the same bytes are the same signature.
    pub proof fn lemma_view_injective(self, other: Signature)
        requires
            self@ == other@,
        ensures
            self == other,
    {
        assert(self.bytes =~= other.bytes);
    }
}

} // verus!
