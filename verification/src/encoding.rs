//! The canonical bytes of a message: what is signed in its place.
//!
//! The layout is fixed-order field concatenation. The first byte tells the kind
//! of message. Integers are little-endian and of fixed width. A byte string of
//! fixed width stands as it is; one of variable width comes last and follows its
//! length, a 64-bit integer.
//!
//! | message       | bytes                                                              |
//! |---------------|--------------------------------------------------------------------|
//! | vote          | `1`, type, height (8), round (5), voter (32), value id (1 or 33)   |
//! | proposal      | `2`, height (8), round (5), POL round (5), proposer (32), length (8), value |
//! | proposal part | `3`, height (8), round (5), sequence (8), last (1), length (8), data |
//!
//! A round is a marker byte (`0` for nil, `1` otherwise) and its number (4); the
//! number of the nil round is written as zero. A value id is the byte `0` for nil,
//! or the byte `1` and the 32 bytes of the id.

use vstd::prelude::*;
use vstd::bytes::spec_u32_to_le_bytes;
use vstd::bytes::spec_u64_to_le_bytes;
use vstd::bytes::u32_to_le_bytes;
use vstd::bytes::u64_to_le_bytes;
use crate::message::BaseProposal;
use crate::message::BaseProposalPart;
use crate::message::BaseVote;
use crate::message::ProposalPartView;
use crate::message::ProposalView;
use crate::message::Round;
use crate::message::VoteType;
use crate::message::VoteView;

verus! {

/// First byte of the canonical bytes of a vote.
pub const VOTE_TAG: u8 = 1;

/// First byte of the canonical bytes of a proposal.
pub const PROPOSAL_TAG: u8 = 2;

/// First byte of the canonical bytes of a proposal part.
pub const PROPOSAL_PART_TAG: u8 = 3;

/// The byte that stands for a vote type.
pub open spec fn vote_type_byte(vote_type: VoteType) -> u8 {
    match vote_type {
        VoteType::Prevote => 0,
        VoteType::Precommit => 1,
    }
}

/// The byte that stands for a flag.
pub open spec fn flag_byte(flag: bool) -> u8 {
    if flag {
        1
    } else {
        0
    }
}

/// The five bytes of a round.
pub open spec fn round_bytes(round: Round) -> Seq<u8> {
    match round {
        Round::Nil => seq![0u8] + spec_u32_to_le_bytes(0),
        Round::Defined(number) => seq![1u8] + spec_u32_to_le_bytes(number),
    }
}

/// The bytes of a value id, or of its absence.
pub open spec fn value_id_bytes(value_id: Option<Seq<u8>>) -> Seq<u8> {
    match value_id {
        None => seq![0u8],
        Some(id) => seq![1u8] + id,
    }
}

/// A byte string behind its length.
pub open spec fn length_prefixed(data: Seq<u8>) -> Seq<u8> {
    spec_u64_to_le_bytes(data.len() as u64) + data
}

/// The canonical bytes of a vote.
pub open spec fn vote_sign_bytes(vote: VoteView) -> Seq<u8> {
    seq![VOTE_TAG, vote_type_byte(vote.vote_type)] + spec_u64_to_le_bytes(vote.height)
        + round_bytes(vote.round) + vote.voter + value_id_bytes(vote.value_id)
}

/// The canonical bytes of a proposal.
pub open spec fn proposal_sign_bytes(proposal: ProposalView) -> Seq<u8> {
    seq![PROPOSAL_TAG] + spec_u64_to_le_bytes(proposal.height) + round_bytes(proposal.round)
        + round_bytes(proposal.pol_round) + proposal.proposer + length_prefixed(proposal.value)
}

/// The canonical bytes of a proposal part.
pub open spec fn proposal_part_sign_bytes(part: ProposalPartView) -> Seq<u8> {
    seq![PROPOSAL_PART_TAG] + spec_u64_to_le_bytes(part.height) + round_bytes(part.round)
        + spec_u64_to_le_bytes(part.sequence) + seq![flag_byte(part.last)] + length_prefixed(
        part.data,
    )
}

/// A message that can be turned into the bytes that are signed for it.
pub trait ToSignBytes {
    /// The canonical bytes of the message: a function of what the message says.
    spec fn sign_bytes(&self) -> Seq<u8>;

    /// Computes the canonical bytes of the message.
    fn to_sign_bytes(&self) -> (bytes: Vec<u8>)
        ensures
            bytes@ == self.sign_bytes(),
    ;
}

/// Appends the bytes to the output.
fn put_bytes(out: &mut Vec<u8>, bytes: &[u8])
    ensures
        final(out)@ == old(out)@ + bytes@,
{
    let mut i: usize = 0;
    while i < bytes.len()
        invariant
            i <= bytes@.len(),
            out@ == old(out)@ + bytes@.subrange(0, i as int),
        decreases bytes@.len() - i,
    {
        out.push(bytes[i]);
        i += 1;
        assert(bytes@.subrange(0, i as int) == bytes@.subrange(0, i - 1).push(bytes@[i - 1]));
    }
    assert(bytes@.subrange(0, i as int) == bytes@);
}

/// Appends the four bytes of the number, the lowest first.
fn put_u32(out: &mut Vec<u8>, number: u32)
    ensures
        final(out)@ == old(out)@ + spec_u32_to_le_bytes(number),
{
    let bytes = u32_to_le_bytes(number);
    put_bytes(out, bytes.as_slice());
}

/// Appends the eight bytes of the number, the lowest first.
fn put_u64(out: &mut Vec<u8>, number: u64)
    ensures
        final(out)@ == old(out)@ + spec_u64_to_le_bytes(number),
{
    let bytes = u64_to_le_bytes(number);
    put_bytes(out, bytes.as_slice());
}

/// Appends the five bytes of the round.
fn put_round(out: &mut Vec<u8>, round: Round)
    ensures
        final(out)@ == old(out)@ + round_bytes(round),
{
    match round {
        Round::Nil => {
            out.push(0);
            put_u32(out, 0);
            assert(out@ == old(out)@ + (seq![0u8] + spec_u32_to_le_bytes(0)));
        },
        Round::Defined(number) => {
            out.push(1);
            put_u32(out, number);
            assert(out@ == old(out)@ + (seq![1u8] + spec_u32_to_le_bytes(number)));
        },
    }
}

/// Appends the length of the data, then the data.
fn put_length_prefixed(out: &mut Vec<u8>, data: &[u8])
    ensures
        final(out)@ == old(out)@ + length_prefixed(data@),
{
    put_u64(out, data.len() as u64);
    put_bytes(out, data);
    assert(out@ == old(out)@ + (spec_u64_to_le_bytes(data@.len() as u64) + data@));
}

impl ToSignBytes for BaseVote {
    open spec fn sign_bytes(&self) -> Seq<u8> {
        vote_sign_bytes(self@)
    }

    fn to_sign_bytes(&self) -> (bytes: Vec<u8>) {
        let mut out: Vec<u8> = Vec::new();
        out.push(VOTE_TAG);
        out.push(
            match self.vote_type {
                VoteType::Prevote => 0,
                VoteType::Precommit => 1,
            },
        );
        assert(out@ == seq![VOTE_TAG, vote_type_byte(self.vote_type)]);
        put_u64(&mut out, self.height);
        put_round(&mut out, self.round);
        put_bytes(&mut out, self.voter.as_bytes());
        match &self.value_id {
            None => {
                out.push(0);
                assert(out@ == vote_sign_bytes(self@));
            },
            Some(id) => {
                let ghost before = out@;
                out.push(1);
                put_bytes(&mut out, id);
                assert(out@ == before + (seq![1u8] + id@));
            },
        }
        out
    }
}

impl ToSignBytes for BaseProposal {
    open spec fn sign_bytes(&self) -> Seq<u8> {
        proposal_sign_bytes(self@)
    }

    fn to_sign_bytes(&self) -> (bytes: Vec<u8>) {
        let mut out: Vec<u8> = Vec::new();
        out.push(PROPOSAL_TAG);
        assert(out@ == seq![PROPOSAL_TAG]);
        put_u64(&mut out, self.height);
        put_round(&mut out, self.round);
        put_round(&mut out, self.pol_round);
        put_bytes(&mut out, self.proposer.as_bytes());
        put_length_prefixed(&mut out, self.value.as_slice());
        out
    }
}

impl ToSignBytes for BaseProposalPart {
    open spec fn sign_bytes(&self) -> Seq<u8> {
        proposal_part_sign_bytes(self@)
    }

    fn to_sign_bytes(&self) -> (bytes: Vec<u8>) {
        let mut out: Vec<u8> = Vec::new();
        out.push(PROPOSAL_PART_TAG);
        assert(out@ == seq![PROPOSAL_PART_TAG]);
        put_u64(&mut out, self.height);
        put_round(&mut out, self.round);
        put_u64(&mut out, self.sequence);
        let ghost before = out@;
        out.push(if self.last { 1 } else { 0 });
        assert(out@ == before + seq![flag_byte(self.last)]);
        put_length_prefixed(&mut out, self.data.as_slice());
        out
    }
}

/// Two concatenations that agree, with first parts of one length, agree part by part.
proof fn lemma_concat_parts(a1: Seq<u8>, b1: Seq<u8>, a2: Seq<u8>, b2: Seq<u8>)
    requires
        a1 + b1 == a2 + b2,
        a1.len() == a2.len(),
    ensures
        a1 == a2,
        b1 == b2,
{
    let n = a1.len() as int;
    assert(a1 =~= (a1 + b1).subrange(0, n));
    assert(a2 =~= (a2 + b2).subrange(0, n));
    assert(b1 =~= (a1 + b1).subrange(n, (a1 + b1).len() as int));
    assert(b2 =~= (a2 + b2).subrange(n, (a2 + b2).len() as int));
}

/// A 32-bit number takes four bytes, and no two numbers take the same four.
proof fn lemma_u32_bytes(a: u32, b: u32)
    ensures
        spec_u32_to_le_bytes(a).len() == 4,
        spec_u32_to_le_bytes(b).len() == 4,
        spec_u32_to_le_bytes(a) == spec_u32_to_le_bytes(b) ==> a == b,
{
    vstd::bytes::lemma_auto_spec_u32_to_from_le_bytes();
}

/// A 64-bit number takes eight bytes, and no two numbers take the same eight.
proof fn lemma_u64_bytes(a: u64, b: u64)
    ensures
        spec_u64_to_le_bytes(a).len() == 8,
        spec_u64_to_le_bytes(b).len() == 8,
        spec_u64_to_le_bytes(a) == spec_u64_to_le_bytes(b) ==> a == b,
{
    vstd::bytes::lemma_auto_spec_u64_to_from_le_bytes();
}

/// A round takes five bytes, and no two rounds take the same five.
pub proof fn lemma_round_bytes(a: Round, b: Round)
    ensures
        round_bytes(a).len() == 5,
        round_bytes(b).len() == 5,
        round_bytes(a) == round_bytes(b) ==> a == b,
{
    let number_a: u32 = match a {
        Round::Nil => 0,
        Round::Defined(number) => number,
    };
    let number_b: u32 = match b {
        Round::Nil => 0,
        Round::Defined(number) => number,
    };
    lemma_u32_bytes(number_a, number_b);
    if round_bytes(a) == round_bytes(b) {
        let marker_a = round_bytes(a).subrange(0, 1);
        let marker_b = round_bytes(b).subrange(0, 1);
        assert(round_bytes(a) == marker_a + spec_u32_to_le_bytes(number_a));
        assert(round_bytes(b) == marker_b + spec_u32_to_le_bytes(number_b));
        lemma_concat_parts(
            marker_a,
            spec_u32_to_le_bytes(number_a),
            marker_b,
            spec_u32_to_le_bytes(number_b),
        );
        assert(marker_a[0] == marker_b[0]);
    }
}

/// **Determinism.** Votes that say the same are signed as the same bytes.
pub proof fn lemma_vote_sign_bytes_deterministic(a: BaseVote, b: BaseVote)
    requires
        a@ == b@,
    ensures
        a.sign_bytes() == b.sign_bytes(),
{
}

/// **Determinism.** Proposals that say the same are signed as the same bytes.
pub proof fn lemma_proposal_sign_bytes_deterministic(a: BaseProposal, b: BaseProposal)
    requires
        a@ == b@,
    ensures
        a.sign_bytes() == b.sign_bytes(),
{
}

/// **Determinism.** Proposal parts that say the same are signed as the same bytes.
pub proof fn lemma_proposal_part_sign_bytes_deterministic(a: BaseProposalPart, b: BaseProposalPart)
    requires
        a@ == b@,
    ensures
        a.sign_bytes() == b.sign_bytes(),
{
}

/// **Uniqueness.** Votes that are signed as the same bytes say the same: a
/// signature on one vote is a signature on no vote that differs from it.
pub proof fn lemma_vote_sign_bytes_injective(a: BaseVote, b: BaseVote)
    requires
        a.sign_bytes() == b.sign_bytes(),
    ensures
        a@ == b@,
{
    let (va, vb) = (a@, b@);
    a.voter.lemma_length();
    b.voter.lemma_length();
    lemma_u64_bytes(va.height, vb.height);
    lemma_round_bytes(va.round, vb.round);
    let head_a = seq![VOTE_TAG, vote_type_byte(va.vote_type)];
    let head_b = seq![VOTE_TAG, vote_type_byte(vb.vote_type)];
    let height_a = head_a + spec_u64_to_le_bytes(va.height);
    let height_b = head_b + spec_u64_to_le_bytes(vb.height);
    let round_a = height_a + round_bytes(va.round);
    let round_b = height_b + round_bytes(vb.round);
    lemma_concat_parts(
        round_a + va.voter,
        value_id_bytes(va.value_id),
        round_b + vb.voter,
        value_id_bytes(vb.value_id),
    );
    lemma_concat_parts(round_a, va.voter, round_b, vb.voter);
    lemma_concat_parts(height_a, round_bytes(va.round), height_b, round_bytes(vb.round));
    lemma_concat_parts(
        head_a,
        spec_u64_to_le_bytes(va.height),
        head_b,
        spec_u64_to_le_bytes(vb.height),
    );
    assert(head_a[1] == head_b[1]);
    assert(value_id_bytes(va.value_id)[0] == value_id_bytes(vb.value_id)[0]);
    match (va.value_id, vb.value_id) {
        (Some(id_a), Some(id_b)) => {
            lemma_concat_parts(seq![1u8], id_a, seq![1u8], id_b);
        },
        _ => {},
    }
}

/// **Uniqueness.** Proposals that are signed as the same bytes say the same.
pub proof fn lemma_proposal_sign_bytes_injective(a: BaseProposal, b: BaseProposal)
    requires
        a.sign_bytes() == b.sign_bytes(),
    ensures
        a@ == b@,
{
    let (va, vb) = (a@, b@);
    a.proposer.lemma_length();
    b.proposer.lemma_length();
    lemma_u64_bytes(va.height, vb.height);
    lemma_u64_bytes(va.value.len() as u64, vb.value.len() as u64);
    lemma_round_bytes(va.round, vb.round);
    lemma_round_bytes(va.pol_round, vb.pol_round);
    let head_a = seq![PROPOSAL_TAG];
    let head_b = seq![PROPOSAL_TAG];
    let height_a = head_a + spec_u64_to_le_bytes(va.height);
    let height_b = head_b + spec_u64_to_le_bytes(vb.height);
    let round_a = height_a + round_bytes(va.round);
    let round_b = height_b + round_bytes(vb.round);
    let pol_a = round_a + round_bytes(va.pol_round);
    let pol_b = round_b + round_bytes(vb.pol_round);
    lemma_concat_parts(
        pol_a + va.proposer,
        length_prefixed(va.value),
        pol_b + vb.proposer,
        length_prefixed(vb.value),
    );
    lemma_concat_parts(pol_a, va.proposer, pol_b, vb.proposer);
    lemma_concat_parts(round_a, round_bytes(va.pol_round), round_b, round_bytes(vb.pol_round));
    lemma_concat_parts(height_a, round_bytes(va.round), height_b, round_bytes(vb.round));
    lemma_concat_parts(
        head_a,
        spec_u64_to_le_bytes(va.height),
        head_b,
        spec_u64_to_le_bytes(vb.height),
    );
    lemma_concat_parts(
        spec_u64_to_le_bytes(va.value.len() as u64),
        va.value,
        spec_u64_to_le_bytes(vb.value.len() as u64),
        vb.value,
    );
}

/// **Uniqueness.** Proposal parts that are signed as the same bytes say the same.
pub proof fn lemma_proposal_part_sign_bytes_injective(a: BaseProposalPart, b: BaseProposalPart)
    requires
        a.sign_bytes() == b.sign_bytes(),
    ensures
        a@ == b@,
{
    let (va, vb) = (a@, b@);
    lemma_u64_bytes(va.height, vb.height);
    lemma_u64_bytes(va.sequence, vb.sequence);
    lemma_u64_bytes(va.data.len() as u64, vb.data.len() as u64);
    lemma_round_bytes(va.round, vb.round);
    let head_a = seq![PROPOSAL_PART_TAG];
    let head_b = seq![PROPOSAL_PART_TAG];
    let height_a = head_a + spec_u64_to_le_bytes(va.height);
    let height_b = head_b + spec_u64_to_le_bytes(vb.height);
    let round_a = height_a + round_bytes(va.round);
    let round_b = height_b + round_bytes(vb.round);
    let sequence_a = round_a + spec_u64_to_le_bytes(va.sequence);
    let sequence_b = round_b + spec_u64_to_le_bytes(vb.sequence);
    let last_a = seq![flag_byte(va.last)];
    let last_b = seq![flag_byte(vb.last)];
    lemma_concat_parts(
        sequence_a + last_a,
        length_prefixed(va.data),
        sequence_b + last_b,
        length_prefixed(vb.data),
    );
    lemma_concat_parts(sequence_a, last_a, sequence_b, last_b);
    lemma_concat_parts(
        round_a,
        spec_u64_to_le_bytes(va.sequence),
        round_b,
        spec_u64_to_le_bytes(vb.sequence),
    );
    lemma_concat_parts(height_a, round_bytes(va.round), height_b, round_bytes(vb.round));
    lemma_concat_parts(
        head_a,
        spec_u64_to_le_bytes(va.height),
        head_b,
        spec_u64_to_le_bytes(vb.height),
    );
    lemma_concat_parts(
        spec_u64_to_le_bytes(va.data.len() as u64),
        va.data,
        spec_u64_to_le_bytes(vb.data.len() as u64),
        vb.data,
    );
    assert(last_a[0] == last_b[0]);
}

/// **Shape of a vote.** The canonical bytes of a vote are never empty: they
/// start with the byte of their kind and are 48 bytes for nil, 80 for a value.
pub proof fn lemma_vote_sign_bytes_shape(vote: BaseVote)
    ensures
        vote.sign_bytes()[0] == VOTE_TAG,
        vote.sign_bytes().len() == if vote.value_id is Some {
            80int
        } else {
            48int
        },
{
    vote.voter.lemma_length();
    lemma_u64_bytes(vote.height, vote.height);
    lemma_round_bytes(vote.round, vote.round);
}

/// **Shape of a proposal.** The canonical bytes of a proposal are never empty:
/// they start with the byte of their kind, and are 59 bytes and the value.
pub proof fn lemma_proposal_sign_bytes_shape(proposal: BaseProposal)
    ensures
        proposal.sign_bytes()[0] == PROPOSAL_TAG,
        proposal.sign_bytes().len() == 59 + proposal.value@.len(),
{
    proposal.proposer.lemma_length();
    lemma_u64_bytes(proposal.height, proposal@.value.len() as u64);
    lemma_round_bytes(proposal.round, proposal.pol_round);
}

/// **Shape of a proposal part.** The canonical bytes of a proposal part are
/// never empty: they start with the byte of their kind, and are 31 bytes and
/// the data.
pub proof fn lemma_proposal_part_sign_bytes_shape(part: BaseProposalPart)
    ensures
        part.sign_bytes()[0] == PROPOSAL_PART_TAG,
        part.sign_bytes().len() == 31 + part.data@.len(),
{
    lemma_u64_bytes(part.height, part.sequence);
    lemma_u64_bytes(part@.data.len() as u64, part.sequence);
    lemma_round_bytes(part.round, part.round);
}

/// **Separation of kinds.** No vote, proposal and proposal part are signed as
/// the same bytes: the first byte tells them apart.
pub proof fn lemma_sign_bytes_kinds_differ(
    vote: BaseVote,
    proposal: BaseProposal,
    part: BaseProposalPart,
)
    ensures
        vote.sign_bytes() != proposal.sign_bytes(),
        vote.sign_bytes() != part.sign_bytes(),
        proposal.sign_bytes() != part.sign_bytes(),
{
    assert(vote.sign_bytes()[0] == VOTE_TAG);
    assert(proposal.sign_bytes()[0] == PROPOSAL_TAG);
    assert(part.sign_bytes()[0] == PROPOSAL_PART_TAG);
}

} // verus!
