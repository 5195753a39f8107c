//! The signing provider: one private key, and the operations that sign and
//! check each kind of message with it.

use vstd::prelude::*;
use bytes::Bytes;
use crate::encoding::ToSignBytes;
use crate::extension::bytes_as_slice;
use crate::extension::bytes_contents;
use crate::keys::PrivateKey;
use crate::keys::PublicKey;
use crate::keys::Signature;
use crate::message::BaseProposal;
use crate::message::BaseProposalPart;
use crate::message::BaseVote;
use crate::primitive::ed25519_accepts;
use crate::primitive::ed25519_derive_public_key;
use crate::primitive::ed25519_generate_seed;
use crate::primitive::ed25519_public_key;
use crate::primitive::ed25519_sign;
use crate::primitive::ed25519_signature;
use crate::primitive::ed25519_verify;

verus! {

/// A message together with a signature that claims to be on it.
///
/// Nothing is known of the pair until the signature has been verified: an
/// envelope can be built from anything that came over the network.
#[derive(Clone, Debug, PartialEq, Eq)]
pub struct SignedMessage<M> {
    /// The message.
    pub message: M,
    /// The signature that came with it.
    pub signature: Signature,
}

impl<M> SignedMessage<M> {
    /// Pairs a message with a signature.
    pub fn new(message: M, signature: Signature) -> (signed: SignedMessage<M>)
        ensures
            signed.message == message,
            signed.signature == signature,
    {
        SignedMessage { message, signature }
    }
}

/// A signed vote.
pub type SignedVote = SignedMessage<BaseVote>;

/// A signed proposal.
pub type SignedProposal = SignedMessage<BaseProposal>;

/// A signed proposal part.
pub type SignedProposalPart = SignedMessage<BaseProposalPart>;

/// A signed vote extension.
pub type SignedExtension = SignedMessage<Bytes>;

/// Signs with one Ed25519 private key, and verifies under any public key.
///
/// Its view is the seed of the private key it holds.
#[derive(Clone, Debug)]
pub struct Ed25519Provider {
    private_key: PrivateKey,
}

impl View for Ed25519Provider {
    type V = Seq<u8>;

    closed spec fn view(&self) -> Seq<u8> {
        self.private_key@
    }
}

impl Ed25519Provider {
    /// Whether `signature` is what this provider gives on `message`, and is
    /// accepted on it under this provider's public key.
    pub open spec fn signs(&self, message: Seq<u8>, signature: Signature) -> bool {
        &&& signature@ == ed25519_signature(self@, message)
        &&& ed25519_accepts(ed25519_public_key(self@), message, signature@)
    }

    /// A provider that signs with the given private key.
    pub fn new(private_key: PrivateKey) -> (provider: Ed25519Provider)
        ensures
            provider@ == private_key@,
    {
        Ed25519Provider { private_key }
    }

    /// A provider with a private key drawn afresh from a cryptographically
    /// secure random source. For tests and development only: the key is kept
    /// nowhere else, and nothing is known of it.
    ///
    /// Panics if the operating system cannot seed the random source.
    pub fn new_test() -> (provider: Ed25519Provider)
        ensures
            provider@.len() == 32,
    {
        let seed = ed25519_generate_seed();
        Ed25519Provider::new(PrivateKey::from_bytes(seed))
    }

    /// The public key that belongs to the private key.
    pub fn public_key(&self) -> (public_key: PublicKey)
        ensures
            public_key@ == ed25519_public_key(self@),
    {
        let bytes = ed25519_derive_public_key(self.private_key.seed());
        PublicKey::from_valid_bytes(bytes)
    }

    /// The private key.
    pub fn private_key(&self) -> (private_key: &PrivateKey)
        ensures
            private_key@ == self@,
    {
        &self.private_key
    }

    /// Signs the bytes as they are.
    pub fn sign(&self, data: &[u8]) -> (signature: Signature)
        ensures
            self.signs(data@, signature),
    {
        Signature::from_bytes(ed25519_sign(self.private_key.seed(), data))
    }

    /// Whether the signature is accepted on the bytes under the public key.
    /// A signature that is not accepted is no error: the answer is `false`.
    pub fn verify(&self, data: &[u8], signature: &Signature, public_key: &PublicKey) -> (accepted:
        bool)
        ensures
            accepted == ed25519_accepts(public_key@, data@, signature@),
    {
        ed25519_verify(public_key.as_bytes(), data, signature.as_bytes())
    }

    /// Signs the canonical bytes of the vote, and hands the vote back with the signature.
    pub fn sign_vote(&self, vote: BaseVote) -> (signed: SignedVote)
        ensures
            signed.message == vote,
            self.signs(vote.sign_bytes(), signed.signature),
    {
        let bytes = vote.to_sign_bytes();
        let signature = self.sign(bytes.as_slice());
        SignedMessage::new(vote, signature)
    }

    /// Whether the signature is accepted on the canonical bytes of the vote.
    pub fn verify_signed_vote(
        &self,
        vote: &BaseVote,
        signature: &Signature,
        public_key: &PublicKey,
    ) -> (accepted: bool)
        ensures
            accepted == ed25519_accepts(public_key@, vote.sign_bytes(), signature@),
    {
        let bytes = vote.to_sign_bytes();
        self.verify(bytes.as_slice(), signature, public_key)
    }

    /// Signs the canonical bytes of the proposal, and hands the proposal back
    /// with the signature.
    pub fn sign_proposal(&self, proposal: BaseProposal) -> (signed: SignedProposal)
        ensures
            signed.message == proposal,
            self.signs(proposal.sign_bytes(), signed.signature),
    {
        let bytes = proposal.to_sign_bytes();
        let signature = self.sign(bytes.as_slice());
        SignedMessage::new(proposal, signature)
    }

    /// Whether the signature is accepted on the canonical bytes of the proposal.
    pub fn verify_signed_proposal(
        &self,
        proposal: &BaseProposal,
        signature: &Signature,
        public_key: &PublicKey,
    ) -> (accepted: bool)
        ensures
            accepted == ed25519_accepts(public_key@, proposal.sign_bytes(), signature@),
    {
        let bytes = proposal.to_sign_bytes();
        self.verify(bytes.as_slice(), signature, public_key)
    }

    /// Signs the canonical bytes of the proposal part, and hands the part back
    /// with the signature.
    pub fn sign_proposal_part(&self, proposal_part: BaseProposalPart) -> (signed:
        SignedProposalPart)
        ensures
            signed.message == proposal_part,
            self.signs(proposal_part.sign_bytes(), signed.signature),
    {
        let bytes = proposal_part.to_sign_bytes();
        let signature = self.sign(bytes.as_slice());
        SignedMessage::new(proposal_part, signature)
    }

    /// Whether the signature is accepted on the canonical bytes of the proposal part.
    pub fn verify_signed_proposal_part(
        &self,
        proposal_part: &BaseProposalPart,
        signature: &Signature,
        public_key: &PublicKey,
    ) -> (accepted: bool)
        ensures
            accepted == ed25519_accepts(public_key@, proposal_part.sign_bytes(), signature@),
    {
        let bytes = proposal_part.to_sign_bytes();
        self.verify(bytes.as_slice(), signature, public_key)
    }

    /// Signs the payload of the extension as it is, with nothing put round it,
    /// and hands the extension back with the signature.
    pub fn sign_vote_extension(&self, extension: Bytes) -> (signed: SignedExtension)
        ensures
            signed.message == extension,
            self.signs(bytes_contents(extension), signed.signature),
    {
        let signature = self.sign(bytes_as_slice(&extension));
        SignedMessage::new(extension, signature)
    }

    /// Whether the signature is accepted on the payload of the extension as it is.
    pub fn verify_signed_vote_extension(
        &self,
        extension: &Bytes,
        signature: &Signature,
        public_key: &PublicKey,
    ) -> (accepted: bool)
        ensures
            accepted == ed25519_accepts(public_key@, bytes_contents(*extension), signature@),
    {
        self.verify(bytes_as_slice(extension), signature, public_key)
    }
}

/// **Sign/verify round trip.** What a provider signed is accepted, on the bytes
/// it was signed on, under the public key of that provider. This rests on what
/// is assumed of the primitive.
pub proof fn lemma_own_signature_is_accepted(
    provider: Ed25519Provider,
    public_key: PublicKey,
    message: Seq<u8>,
    signature: Signature,
)
    requires
        provider.signs(message, signature),
        public_key@ == ed25519_public_key(provider@),
    ensures
        ed25519_accepts(public_key@, message, signature@),
{
}

/// **Signing is a function.** A provider gives one signature on given bytes,
/// however often and by whichever operation it signs them.
pub proof fn lemma_signature_is_unique(
    provider: Ed25519Provider,
    message: Seq<u8>,
    first: Signature,
    second: Signature,
)
    requires
        provider.signs(message, first),
        provider.signs(message, second),
    ensures
        first == second,
{
    first.lemma_view_injective(second);
}

impl Default for Ed25519Provider {
    /// A provider with a fresh random key, as `new_test` gives.
    fn default() -> (provider: Ed25519Provider)
        ensures
            provider@.len() == 32,
    {
        Ed25519Provider::new_test()
    }
}

} // verus!
