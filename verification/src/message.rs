//! The consensus messages that get signed, and their mathematical views.

use vstd::prelude::*;
use crate::keys::PublicKey;

verus! {

/// The step of a round in which a vote is cast.
#[derive(Clone, Copy, Debug, PartialEq, Eq, Structural)]
pub enum VoteType {
    /// A vote for a value seen as valid in the round.
    Prevote,
    /// A vote to commit to a value in the round.
    Precommit,
}

/// A round number: none, or a number from zero up.
#[derive(Clone, Copy, Debug, PartialEq, Eq, Structural)]
pub enum Round {
    /// No round.
    Nil,
    /// The round with the given number.
    Defined(u32),
}

/// A vote of one validator at a height and round, for a value or for nil.
#[derive(Clone, Debug, PartialEq, Eq)]
pub struct BaseVote {
    /// Prevote or precommit.
    pub vote_type: VoteType,
    /// The height voted at.
    pub height: u64,
    /// The round voted in.
    pub round: Round,
    /// The identifier (a 32-byte digest) of the value voted for; `None` is a vote for nil.
    pub value_id: Option<[u8; 32]>,
    /// The validator who casts the vote.
    pub voter: PublicKey,
}

/// What a vote says, with byte strings as sequences.
pub struct VoteView {
    pub vote_type: VoteType,
    pub height: u64,
    pub round: Round,
    pub value_id: Option<Seq<u8>>,
    pub voter: Seq<u8>,
}

impl View for BaseVote {
    type V = VoteView;

    open spec fn view(&self) -> VoteView {
        VoteView {
            vote_type: self.vote_type,
            height: self.height,
            round: self.round,
            value_id: match self.value_id {
                Some(id) => Some(id@),
                None => None,
            },
            voter: self.voter@,
        }
    }
}

/// A proposal of a value at a height and round.
#[derive(Clone, Debug, PartialEq, Eq)]
pub struct BaseProposal {
    /// The height proposed at.
    pub height: u64,
    /// The round proposed in.
    pub round: Round,
    /// The proposed value, as the application encoded it.
    pub value: Vec<u8>,
    /// The round in which the value gathered a quorum of prevotes, if it did.
    pub pol_round: Round,
    /// The validator who proposes.
    pub proposer: PublicKey,
}

/// What a proposal says, with byte strings as sequences.
pub struct ProposalView {
    pub height: u64,
    pub round: Round,
    pub value: Seq<u8>,
    pub pol_round: Round,
    pub proposer: Seq<u8>,
}

impl View for BaseProposal {
    type V = ProposalView;

    open spec fn view(&self) -> ProposalView {
        ProposalView {
            height: self.height,
            round: self.round,
            value: self.value@,
            pol_round: self.pol_round,
            proposer: self.proposer@,
        }
    }
}

/// One fragment of a proposed value that is streamed in pieces.
#[derive(Clone, Debug, PartialEq, Eq)]
pub struct BaseProposalPart {
    /// The height of the proposal the part belongs to.
    pub height: u64,
    /// The round of the proposal the part belongs to.
    pub round: Round,
    /// The position of the part in its stream, from zero.
    pub sequence: u64,
    /// Whether the part closes its stream.
    pub last: bool,
    /// The bytes that the part carries.
    pub data: Vec<u8>,
}

/// What a proposal part says, with byte strings as sequences.
pub struct ProposalPartView {
    pub height: u64,
    pub round: Round,
    pub sequence: u64,
    pub last: bool,
    pub data: Seq<u8>,
}

impl View for BaseProposalPart {
    type V = ProposalPartView;

    open spec fn view(&self) -> ProposalPartView {
        ProposalPartView {
            height: self.height,
            round: self.round,
            sequence: self.sequence,
            last: self.last,
            data: self.data@,
        }
    }
}

impl BaseProposalPart {
    /// Whether the part opens its stream.
    pub fn is_first(&self) -> (first: bool)
        ensures
            first == (self.sequence == 0),
    {
        self.sequence == 0
    }

    /// Whether the part closes its stream.
    pub fn is_last(&self) -> (last: bool)
        ensures
            last == self.last,
    {
        self.last
    }
}

} // verus!
