//! The wire form of a signature: its 64 bytes, and nothing else.

use vstd::prelude::*;
use crate::keys::Signature;
use crate::keys::SIGNATURE_LENGTH;
use crate::provider::Ed25519Provider;

verus! {

/// Why bytes were not taken as a signature.
#[derive(Clone, Copy, Debug, PartialEq, Eq, Structural)]
pub enum DecodingError {
    /// The input is not exactly 64 bytes long.
    InvalidLength,
}

impl DecodingError {
    /// The error in words.
    pub fn message(&self) -> (text: &'static str)
        ensures
            text@ == "Invalid signature length"@,
    {
        "Invalid signature length"
    }
}

/// The bytes that stand for a signature on the wire.
pub open spec fn signature_encoding(signature: Signature) -> Seq<u8> {
    signature@
}

/// The bytes of the signature that the input stands for, or why it stands for none.
/// Only the length is looked at.
pub open spec fn signature_decoding(bytes: Seq<u8>) -> Result<Seq<u8>, DecodingError> {
    if bytes.len() == SIGNATURE_LENGTH {
        Ok(bytes)
    } else {
        Err(DecodingError::InvalidLength)
    }
}

impl Ed25519Provider {
    /// Reads a signature from its wire form.
    ///
    /// Succeeds on exactly the inputs of 64 bytes, with the signature made of
    /// those bytes; any other input is an `InvalidLength` error.
    pub fn decode_signature(bytes: &[u8]) -> (decoded: Result<Signature, DecodingError>)
        ensures
            match decoded {
                Ok(signature) => signature_decoding(bytes@) == Ok::<Seq<u8>, DecodingError>(
                    signature@,
                ),
                Err(error) => signature_decoding(bytes@) == Err::<Seq<u8>, DecodingError>(error),
            },
    {
        if bytes.len() != SIGNATURE_LENGTH {
            return Err(DecodingError::InvalidLength);
        }
        let mut array = [0u8; 64];
        let mut i: usize = 0;
        while i < SIGNATURE_LENGTH
            invariant
                i <= SIGNATURE_LENGTH,
                bytes@.len() == SIGNATURE_LENGTH,
                forall|j: int| 0 <= j < i ==> array@[j] == bytes@[j],
            decreases SIGNATURE_LENGTH - i,
        {
            array[i] = bytes[i];
            i += 1;
        }
        assert(array@ =~= bytes@);
        Ok(Signature::from_bytes(array))
    }

    /// Writes a signature in its wire form: its 64 bytes.
    pub fn encode_signature(signature: &Signature) -> (bytes: Vec<u8>)
        ensures
            bytes@ == signature_encoding(*signature),
    {
        let array = signature.as_bytes();
        let mut bytes: Vec<u8> = Vec::with_capacity(SIGNATURE_LENGTH);
        let mut i: usize = 0;
        while i < SIGNATURE_LENGTH
            invariant
                i <= SIGNATURE_LENGTH,
                array@ == signature@,
                bytes@ == array@.subrange(0, i as int),
            decreases SIGNATURE_LENGTH - i,
        {
            bytes.push(array[i]);
            i += 1;
            assert(array@.subrange(0, i as int) == array@.subrange(0, i - 1).push(array@[i - 1]));
        }
        assert(array@.subrange(0, i as int) == array@);
        bytes
    }
}

/// **Codec round trip.** What is read back from the wire form of a signature
/// is that signature.
pub proof fn lemma_signature_codec_round_trip(signature: Signature, decoded: Signature)
    requires
        signature_decoding(signature_encoding(signature)) == Ok::<Seq<u8>, DecodingError>(
            decoded@,
        ),
    ensures
        decoded == signature,
{
    decoded.lemma_view_injective(signature);
}

/// **Codec round trip.** The wire form of every signature is read back.
pub proof fn lemma_signature_encoding_decodes(signature: Signature)
    ensures
        signature_encoding(signature).len() == SIGNATURE_LENGTH,
        signature_decoding(signature_encoding(signature)) == Ok::<Seq<u8>, DecodingError>(
            signature@,
        ),
{
    signature.lemma_length();
}

/// **Length check.** Reading fails on every input that is not 64 bytes long,
/// with a length error, and on no other input.
pub proof fn lemma_signature_decoding_checks_length(bytes: Seq<u8>)
    ensures
        bytes.len() != 64 <==> signature_decoding(bytes) == Err::<Seq<u8>, DecodingError>(
            DecodingError::InvalidLength,
        ),
        bytes.len() == 64 <==> signature_decoding(bytes) == Ok::<Seq<u8>, DecodingError>(bytes),
{
}

} // verus!
