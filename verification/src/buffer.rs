//! The byte buffer that carries a record to and from the storage engine.
//!
//! Records travel as `bytes::Bytes`, a shared buffer that is cheap to hand
//! on. The verifier does not look inside one: what it holds, and what the two
//! functions below do to that, is stated here and taken on trust.

use vstd::prelude::*;
use bytes::Bytes;

verus! {

/// `bytes::Bytes`, declared so that it can stand in signatures and fields.
/// Nothing is said of its representation.
#[verifier::external_type_specification]
#[verifier::external_body]
pub struct ExBytes(bytes::Bytes);

/// The bytes that a buffer holds, in order: what `Bytes` dereferences to.
pub uninterp spec fn bytes_of(buffer: Bytes) -> Seq<u8>;

/// `Bytes::copy_from_slice` makes a buffer from a slice by copying it: the
/// buffer holds exactly the bytes of the slice.
pub assume_specification[ bytes::Bytes::copy_from_slice ](data: &[u8]) -> (buffer: Bytes)
    ensures
        bytes_of(buffer) == data@,
;

/// `Bytes::clone` hands out a second handle to the same memory: the clone
/// holds exactly the bytes of the buffer it was made from.
pub assume_specification[ <bytes::Bytes as Clone>::clone ](buffer: &Bytes) -> (copy: Bytes)
    ensures
        bytes_of(copy) == bytes_of(*buffer),
;

} // verus!
