//! Message signing for a Byzantine-fault-tolerant consensus engine.
//!
//! A [`provider::Ed25519Provider`] holds one private key. It turns a vote, a
//! proposal or a proposal part into its canonical bytes ([`encoding`]), signs
//! those bytes, and checks signatures that other participants made. Vote
//! extensions are signed as they are ([`extension`]). Signatures travel as their
//! 64 bytes ([`codec`]).
//!
//! The Ed25519 arithmetic is not part of this crate: [`primitive`] states what
//! is assumed of it.

pub mod codec;
pub mod encoding;
pub mod extension;
pub mod keys;
pub mod message;
pub mod primitive;
pub mod provider;

pub use codec::DecodingError;
pub use encoding::ToSignBytes;
pub use keys::PrivateKey;
pub use keys::PublicKey;
pub use keys::Signature;
pub use message::BaseProposal;
pub use message::BaseProposalPart;
pub use message::BaseVote;
pub use message::Round;
pub use message::VoteType;
pub use provider::Ed25519Provider;
pub use provider::SignedExtension;
pub use provider::SignedMessage;
pub use provider::SignedProposal;
pub use provider::SignedProposalPart;
pub use provider::SignedVote;
