//! Vote extensions: application payloads that are signed as they are.
//!
//! A payload travels as a `bytes::Bytes` buffer. The buffer is a type of the
//! `bytes` crate; what is said of it here is taken on trust.

use vstd::prelude::*;
use bytes::Bytes;

verus! {

#[verifier::external_type_specification]
#[verifier::external_body]
pub struct ExBytes(Bytes);

/// The bytes that a buffer holds, in order.
pub uninterp spec fn bytes_contents(buffer: Bytes) -> Seq<u8>;

/// `Bytes::as_ref`: the buffer's bytes as a slice, in order and all of them.
#[verifier::external_body]
pub(crate) fn bytes_as_slice(buffer: &Bytes) -> (slice: &[u8])
    ensures
        slice@ == bytes_contents(*buffer),
{
    buffer.as_ref()
}

} // verus!
