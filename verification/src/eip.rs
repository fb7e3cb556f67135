//! The codec contract's shared pieces: the result type every operation
//! returns and the reservation step of the length-prefixed framing protocol.

use vstd::prelude::*;

use crate::error_code::ErrorCode;
use crate::sink::{bytes_of, empty_sink, remaining_mut};
use bytes::BytesMut;

verus! {

/// The outcome of one codec operation: success, or one CIP status code.
pub type EipResult = Result<(), ErrorCode>;

/// Reserve room in a sink to serialize some object later.
///
/// Fails `ReplyDataTooLarge` when the sink lacks headroom for `s` bytes.
/// On success the sink is untouched and an empty continuation is returned;
/// the caller encodes the variable body into the continuation, writes the
/// backfilled header into the sink, and reunites the two with `unsplit`,
/// which appends the continuation's bytes after the header.
pub fn split_off(buf: &mut BytesMut, s: usize) -> (r: Result<BytesMut, ErrorCode>)
    ensures
        match r {
            Ok(rest) => {
                &&& bytes_of(*old(buf)).len() + s <= isize::MAX
                &&& bytes_of(rest) == Seq::<u8>::empty()
                &&& bytes_of(*final(buf)) == bytes_of(*old(buf))
            },
            Err(e) => {
                &&& e == ErrorCode::ReplyDataTooLarge
                &&& bytes_of(*old(buf)).len() + s > isize::MAX
                &&& bytes_of(*final(buf)) == bytes_of(*old(buf))
            },
        },
{
    if remaining_mut(buf) < s {
        return Err(ErrorCode::ReplyDataTooLarge);
    }
    Ok(empty_sink())
}

/// Every type this crate hands across threads is plain data.
pub fn check_auto_traits<T: Sized + Send + Sync + Unpin>() {
}

} // verus!
