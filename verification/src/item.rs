//! The common packet format item header: a 16-bit type identifier plus a
//! 16-bit length, the primitive under the length-prefixed framing protocol.

use vstd::prelude::*;

use crate::eip;
use crate::eip::EipResult;
use crate::error_code::ErrorCode;
use crate::reader::Reader;
use crate::sink;
use crate::sink::bytes_of;
use crate::wire::{le16, u16_le_val};
use bytes::BytesMut;

verus! {

/// An item type identifier.
#[derive(Clone, Copy, Debug, PartialEq, Eq, Structural)]
pub struct Id(pub u16);

impl Default for Id {
    fn default() -> (r: Self)
        ensures
            r.0 == 0,
    {
        Id(0)
    }
}

/// An item header: a type identifier and the length of the body that
/// follows it. The length is constructed as a placeholder of zero and
/// backfilled once the body's encoded length is known.
#[derive(Clone, Debug, PartialEq)]
pub struct Item {
    pub type_id: Id,
    pub len: usize,
}

impl Item {
    pub const NULL_ADDRESS: u16 = 0x0000;

    pub const IDENTITY: u16 = 0x000c;

    pub const CONNECTED_ADDRESS: u16 = 0x00a1;

    pub const CONNECTED_DATA: u16 = 0x00b1;

    pub const UNCONNECTED_DATA: u16 = 0x00b2;

    pub const SERVICES: u16 = 0x0100;

    pub const SOCKET_OT: u16 = 0x8000;

    pub const SOCKET_TO: u16 = 0x8001;

    pub const SEQUENCED_ADDRESS: u16 = 0x8002;

    /// The wire form: type identifier then length, each two little-endian
    /// bytes.
    pub open spec fn spec_enc(self) -> Seq<u8> {
        le16(self.type_id.0) + le16(self.len as u16)
    }

    /// Create an instance. Typically used for the server side; `Default`
    /// is typically for the client side.
    pub fn new(type_id: Id, len: usize) -> (r: Self)
        ensures
            r.type_id == type_id,
            r.len == len,
    {
        Item { type_id, len }
    }

    /// Get the serialized size in bytes.
    pub fn serial_size(&self) -> (r: usize)
        ensures
            r == 4,
    {
        4
    }

    /// Reserve room in a sink to serialize this header later; see
    /// [`eip::split_off`].
    pub fn split_off(&self, buf: &mut BytesMut) -> (r: Result<BytesMut, ErrorCode>)
        ensures
            match r {
                Ok(rest) => {
                    &&& bytes_of(*old(buf)).len() + 4 <= isize::MAX
                    &&& bytes_of(rest) == Seq::<u8>::empty()
                    &&& bytes_of(*final(buf)) == bytes_of(*old(buf))
                },
                Err(e) => {
                    &&& e == ErrorCode::ReplyDataTooLarge
                    &&& bytes_of(*old(buf)).len() + 4 > isize::MAX
                    &&& bytes_of(*final(buf)) == bytes_of(*old(buf))
                },
            },
    {
        eip::split_off(buf, self.serial_size())
    }

    /// Deserialize both fields.
    pub fn deserialize(&mut self, buf: &mut Reader) -> (r: EipResult)
        ensures
            match r {
                Ok(()) => {
                    &&& old(buf).rest().len() >= 4
                    &&& final(self).type_id.0 == u16_le_val(old(buf).rest()[0], old(buf).rest()[1])
                    &&& final(self).len == u16_le_val(old(buf).rest()[2], old(buf).rest()[3])
                    &&& final(buf).rest() == old(buf).rest().skip(4)
                },
                Err(e) => {
                    &&& e == ErrorCode::NotEnoughData
                    &&& old(buf).rest().len() < 4
                    &&& *final(self) == *old(self)
                    &&& *final(buf) == *old(buf)
                },
            },
    {
        if buf.remaining() < self.serial_size() {
            return Err(ErrorCode::NotEnoughData);
        }
        self.type_id.0 = buf.get_u16_le();
        proof {
            assert(buf.rest()[0] == old(buf).rest()[2]);
            assert(buf.rest()[1] == old(buf).rest()[3]);
        }
        self.len = buf.get_u16_le() as usize;
        proof {
            assert(buf.rest() =~= old(buf).rest().skip(4));
        }
        Ok(())
    }

    /// Serialize both fields; the length must fit the 16-bit wire field.
    pub fn serialize(&self, buf: &mut BytesMut) -> (r: EipResult)
        ensures
            match r {
                Ok(()) => {
                    &&& self.len <= 0xffff
                    &&& bytes_of(*old(buf)).len() + 4 <= isize::MAX
                    &&& bytes_of(*final(buf)) == bytes_of(*old(buf)) + self.spec_enc()
                },
                Err(e) => {
                    &&& e == ErrorCode::ReplyDataTooLarge
                    &&& (self.len > 0xffff || bytes_of(*old(buf)).len() + 4 > isize::MAX)
                    &&& bytes_of(*final(buf)) == bytes_of(*old(buf))
                },
            },
    {
        if (sink::remaining_mut(buf) < self.serial_size()) || (self.len > 0xffff) {
            return Err(ErrorCode::ReplyDataTooLarge);
        }
        sink::put_u16_le(buf, self.type_id.0);
        sink::put_u16_le(buf, self.len as u16);
        proof {
            assert(bytes_of(*buf) =~= bytes_of(*old(buf)) + self.spec_enc());
        }
        Ok(())
    }
}

/// Frames a body via the reserve/backfill protocol: the header is built
/// with a placeholder length of zero, its room is reserved, the body goes
/// into the returned continuation, the header's length is backfilled with
/// the bytes the continuation grew by, the header is written, and the two
/// parts are reunited.
///
/// The result is byte-identical to computing the length up front and
/// writing header then body sequentially; the protocol exists purely to
/// avoid that pre-pass. The sink must have room for header and body under
/// the allocation cap; a body too long for the 16-bit length field fails
/// `ReplyDataTooLarge`.
pub fn frame_body(type_id: Id, body: &[u8], buf: &mut BytesMut) -> (r: EipResult)
    requires
        bytes_of(*old(buf)).len() + 4 + body@.len() <= isize::MAX,
    ensures
        match r {
            Ok(()) => {
                &&& body@.len() <= 0xffff
                &&& bytes_of(*final(buf)) == bytes_of(*old(buf)) + le16(type_id.0) + le16(
                    body@.len() as u16,
                ) + body@
            },
            Err(e) => e == ErrorCode::ReplyDataTooLarge && body@.len() > 0xffff,
        },
{
    let mut item = Item::new(type_id, 0);
    let mut rest = match item.split_off(buf) {
        Ok(rest) => rest,
        Err(e) => {
            return Err(e);
        },
    };
    sink::put_slice(&mut rest, body);
    item.len = sink::sink_len(&rest);
    item.serialize(buf)?;
    sink::unsplit(buf, rest);
    proof {
        assert(bytes_of(*buf) =~= bytes_of(*old(buf)) + le16(type_id.0) + le16(
            body@.len() as u16,
        ) + body@);
    }
    Ok(())
}

impl Default for Item {
    fn default() -> (r: Self)
        ensures
            r.type_id.0 == 0,
            r.len == 0,
    {
        Item { type_id: Id(0), len: 0 }
    }
}

} // verus!
