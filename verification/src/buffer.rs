//! What this library assumes of the byte buffers of the `bytes` crate.
//!
//! Frames travel as `Bytes`. Verus cannot look inside a `Bytes` or a
//! `BytesMut`, so their contents are named here and the few methods the
//! library calls are given contracts over those names. Nothing in this file
//! is proved; what the crate proves of frames, it proves from it.

use bytes::{Bytes, BytesMut};
use vstd::prelude::*;

verus! {

/// `bytes::Bytes`, made known so that it can stand in signatures and
/// fields. Nothing is said of what is inside.
#[verifier::external_type_specification]
#[verifier::external_body]
pub struct ExBytes(bytes::Bytes);

/// `bytes::BytesMut`, made known in the same way.
#[verifier::external_type_specification]
#[verifier::external_body]
pub struct ExBytesMut(bytes::BytesMut);

/// The bytes that a `Bytes` holds, first to last.
pub uninterp spec fn bytes_contents(b: Bytes) -> Seq<u8>;

/// The bytes that a `BytesMut` holds, first to last.
pub uninterp spec fn bytes_mut_contents(b: BytesMut) -> Seq<u8>;

/// The number of bytes that a `BytesMut` was made to hold without growing.
pub uninterp spec fn bytes_mut_limit(b: BytesMut) -> nat;

/// `BytesMut::with_capacity`: the new buffer is empty and can take
/// `capacity` bytes without growing. The underlying `Vec::with_capacity`
/// panics above `isize::MAX` bytes, which `requires` leaves out.
pub assume_specification[ BytesMut::with_capacity ](capacity: usize) -> (buf: BytesMut)
    requires
        capacity <= isize::MAX,
    ensures
        bytes_mut_contents(buf) == Seq::<u8>::empty(),
        bytes_mut_limit(buf) == capacity,
;

/// `BytesMut::extend_from_slice`: the slice is appended. The contract is
/// stated only for an append that fits in what the buffer was made to hold,
/// where the source shows that `reserve` returns at once and nothing is
/// reallocated.
pub assume_specification[ BytesMut::extend_from_slice ](buf: &mut BytesMut, extend: &[u8])
    requires
        bytes_mut_contents(*old(buf)).len() + extend@.len() <= bytes_mut_limit(*old(buf)),
    ensures
        bytes_mut_contents(*final(buf)) == bytes_mut_contents(*old(buf)) + extend@,
        bytes_mut_limit(*final(buf)) == bytes_mut_limit(*old(buf)),
;

/// `BytesMut::freeze`: the frozen buffer holds the same bytes.
pub assume_specification[ BytesMut::freeze ](buf: BytesMut) -> (out: Bytes)
    ensures
        bytes_contents(out) == bytes_mut_contents(buf),
;

/// `Deref` of `Bytes`: the slice is the bytes held.
pub assume_specification[ <Bytes as core::ops::Deref>::deref ](b: &Bytes) -> (s: &[u8])
    ensures
        s@ == bytes_contents(*b),
;

} // verus!
