//! The growable byte sink every encoder writes into, together with the
//! contracts this crate relies on for it.
//!
//! The sink is `bytes::BytesMut`. Verus sees the type opaquely; `bytes_of`
//! names the byte sequence a sink holds, and each wrapper below states, over
//! that name, what one `bytes` operation does to the contents. `BytesMut`
//! grows on demand and its allocation is capped at `isize::MAX` bytes, so
//! its writable headroom is `isize::MAX` minus the current length.

use vstd::prelude::*;

use crate::wire::{be16, be32, le16, le32, u16_of_i16, u32_of_i32, u8_of_i8};
use bytes::BufMut;
use bytes::BytesMut;

verus! {

#[verifier::external_type_specification]
#[verifier::external_body]
pub struct ExBytesMut(BytesMut);

/// The bytes a sink holds, in order.
pub uninterp spec fn bytes_of(b: BytesMut) -> Seq<u8>;

/// Relies on `bytes::BytesMut::new`: the new sink holds no bytes.
#[verifier::external_body]
pub(crate) fn empty_sink() -> (r: BytesMut)
    ensures
        bytes_of(r) == Seq::<u8>::empty(),
{
    BytesMut::new()
}

/// Relies on `bytes::BytesMut::len`: the number of bytes held.
#[verifier::external_body]
pub(crate) fn sink_len(b: &BytesMut) -> (r: usize)
    ensures
        r == bytes_of(*b).len(),
{
    b.len()
}

/// Relies on `bytes::BufMut::remaining_mut` for `BytesMut`: the headroom is
/// `isize::MAX` less the current length, the allocation cap being `isize::MAX`.
#[verifier::external_body]
pub(crate) fn remaining_mut(b: &BytesMut) -> (r: usize)
    ensures
        r == isize::MAX - bytes_of(*b).len(),
{
    b.remaining_mut()
}

/// Relies on `bytes::BufMut::put_u8` for `BytesMut`: appends the byte.
#[verifier::external_body]
pub(crate) fn put_u8(b: &mut BytesMut, v: u8)
    requires
        bytes_of(*old(b)).len() + 1 <= isize::MAX,
    ensures
        bytes_of(*final(b)) == bytes_of(*old(b)) + seq![v],
{
    b.put_u8(v)
}

/// Relies on `bytes::BufMut::put_i8` for `BytesMut`: appends the byte in
/// two's complement.
#[verifier::external_body]
pub(crate) fn put_i8(b: &mut BytesMut, v: i8)
    requires
        bytes_of(*old(b)).len() + 1 <= isize::MAX,
    ensures
        bytes_of(*final(b)) == bytes_of(*old(b)) + seq![u8_of_i8(v)],
{
    b.put_i8(v)
}

/// Relies on `bytes::BufMut::put_u16_le` for `BytesMut`: appends the two
/// little-endian bytes of the value.
#[verifier::external_body]
pub(crate) fn put_u16_le(b: &mut BytesMut, v: u16)
    requires
        bytes_of(*old(b)).len() + 2 <= isize::MAX,
    ensures
        bytes_of(*final(b)) == bytes_of(*old(b)) + le16(v),
{
    b.put_u16_le(v)
}

/// Relies on `bytes::BufMut::put_i16_le` for `BytesMut`: appends the two
/// little-endian bytes of the value in two's complement.
#[verifier::external_body]
pub(crate) fn put_i16_le(b: &mut BytesMut, v: i16)
    requires
        bytes_of(*old(b)).len() + 2 <= isize::MAX,
    ensures
        bytes_of(*final(b)) == bytes_of(*old(b)) + le16(u16_of_i16(v)),
{
    b.put_i16_le(v)
}

/// Relies on `bytes::BufMut::put_u32_le` for `BytesMut`: appends the four
/// little-endian bytes of the value.
#[verifier::external_body]
pub(crate) fn put_u32_le(b: &mut BytesMut, v: u32)
    requires
        bytes_of(*old(b)).len() + 4 <= isize::MAX,
    ensures
        bytes_of(*final(b)) == bytes_of(*old(b)) + le32(v),
{
    b.put_u32_le(v)
}

/// Relies on `bytes::BufMut::put_i32_le` for `BytesMut`: appends the four
/// little-endian bytes of the value in two's complement.
#[verifier::external_body]
pub(crate) fn put_i32_le(b: &mut BytesMut, v: i32)
    requires
        bytes_of(*old(b)).len() + 4 <= isize::MAX,
    ensures
        bytes_of(*final(b)) == bytes_of(*old(b)) + le32(u32_of_i32(v)),
{
    b.put_i32_le(v)
}

/// Relies on `bytes::BufMut::put_u16` for `BytesMut`: appends the two
/// big-endian bytes of the value.
#[verifier::external_body]
pub(crate) fn put_u16_be(b: &mut BytesMut, v: u16)
    requires
        bytes_of(*old(b)).len() + 2 <= isize::MAX,
    ensures
        bytes_of(*final(b)) == bytes_of(*old(b)) + be16(v),
{
    b.put_u16(v)
}

/// Relies on `bytes::BufMut::put_i16` for `BytesMut`: appends the two
/// big-endian bytes of the value in two's complement.
#[verifier::external_body]
pub(crate) fn put_i16_be(b: &mut BytesMut, v: i16)
    requires
        bytes_of(*old(b)).len() + 2 <= isize::MAX,
    ensures
        bytes_of(*final(b)) == bytes_of(*old(b)) + be16(u16_of_i16(v)),
{
    b.put_i16(v)
}

/// Relies on `bytes::BufMut::put_u32` for `BytesMut`: appends the four
/// big-endian bytes of the value.
#[verifier::external_body]
pub(crate) fn put_u32_be(b: &mut BytesMut, v: u32)
    requires
        bytes_of(*old(b)).len() + 4 <= isize::MAX,
    ensures
        bytes_of(*final(b)) == bytes_of(*old(b)) + be32(v),
{
    b.put_u32(v)
}

/// Relies on `bytes::BytesMut::extend_from_slice`: appends the slice.
#[verifier::external_body]
pub(crate) fn put_slice(b: &mut BytesMut, s: &[u8])
    requires
        bytes_of(*old(b)).len() + s@.len() <= isize::MAX,
    ensures
        bytes_of(*final(b)) == bytes_of(*old(b)) + s@,
{
    b.extend_from_slice(s)
}

/// Relies on `bytes::BytesMut::unsplit`: reunites a continuation with its
/// sink, the continuation's bytes following the sink's.
#[verifier::external_body]
pub(crate) fn unsplit(a: &mut BytesMut, b: BytesMut)
    requires
        bytes_of(*old(a)).len() + bytes_of(b).len() <= isize::MAX,
    ensures
        bytes_of(*final(a)) == bytes_of(*old(a)) + bytes_of(b),
{
    a.unsplit(b)
}

} // verus!
