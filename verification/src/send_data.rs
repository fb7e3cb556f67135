//! The SendRRData / SendUnitData command body header: interface handle,
//! timeout, and the item count that precedes the packet items.

use vstd::prelude::*;

use crate::eip;
use crate::eip::EipResult;
use crate::error_code::ErrorCode;
use crate::reader::Reader;
use crate::sink;
use crate::sink::bytes_of;
use crate::wire::{le16, le32, u16_le_val, u32_le_val};
use bytes::BytesMut;

verus! {

/// The SendRRData and SendUnitData body header.
#[derive(Clone, Debug, PartialEq)]
pub struct SendData {
    pub interface_handle: u32,
    pub time_out: u16,
    pub item_count: u16,
}

impl SendData {
    /// The wire form: interface handle, timeout, item count, little-endian.
    pub open spec fn spec_enc(self) -> Seq<u8> {
        le32(self.interface_handle) + le16(self.time_out) + le16(self.item_count)
    }

    /// Get the serialized size in bytes.
    pub fn serial_size(&self) -> (r: usize)
        ensures
            r == 8,
    {
        4  // interface_handle
         + 2  // time_out
         + 2  // item_count
    }

    /// Reserve room in a sink to serialize this later; see
    /// [`eip::split_off`].
    pub fn split_off(&self, buf: &mut BytesMut) -> (r: Result<BytesMut, ErrorCode>)
        ensures
            match r {
                Ok(rest) => {
                    &&& bytes_of(*old(buf)).len() + 8 <= isize::MAX
                    &&& bytes_of(rest) == Seq::<u8>::empty()
                    &&& bytes_of(*final(buf)) == bytes_of(*old(buf))
                },
                Err(e) => {
                    &&& e == ErrorCode::ReplyDataTooLarge
                    &&& bytes_of(*old(buf)).len() + 8 > isize::MAX
                    &&& bytes_of(*final(buf)) == bytes_of(*old(buf))
                },
            },
    {
        eip::split_off(buf, self.serial_size())
    }

    /// Deserialize all fields.
    pub fn deserialize(&mut self, buf: &mut Reader) -> (r: EipResult)
        ensures
            match r {
                Ok(()) => ({
                    let b = old(buf).rest();
                    &&& b.len() >= 8
                    &&& final(self).interface_handle == u32_le_val(b[0], b[1], b[2], b[3])
                    &&& final(self).time_out == u16_le_val(b[4], b[5])
                    &&& final(self).item_count == u16_le_val(b[6], b[7])
                    &&& final(buf).rest() == b.skip(8)
                }),
                Err(e) => {
                    &&& e == ErrorCode::NotEnoughData
                    &&& old(buf).rest().len() < 8
                    &&& *final(self) == *old(self)
                    &&& *final(buf) == *old(buf)
                },
            },
    {
        if buf.remaining() < self.serial_size() {
            return Err(ErrorCode::NotEnoughData);
        }
        let ghost b = buf.rest();
        self.interface_handle = buf.get_u32_le();
        proof {
            assert(buf.rest()[0] == b[4] && buf.rest()[1] == b[5]);
            assert(buf.rest()[2] == b[6] && buf.rest()[3] == b[7]);
        }
        self.time_out = buf.get_u16_le();
        proof {
            assert(buf.rest()[0] == b[6] && buf.rest()[1] == b[7]);
        }
        self.item_count = buf.get_u16_le();
        proof {
            assert(buf.rest() =~= b.skip(8));
        }
        Ok(())
    }

    /// Serialize all fields.
    pub fn serialize(&self, buf: &mut BytesMut) -> (r: EipResult)
        ensures
            match r {
                Ok(()) => {
                    &&& bytes_of(*old(buf)).len() + 8 <= isize::MAX
                    &&& bytes_of(*final(buf)) == bytes_of(*old(buf)) + self.spec_enc()
                },
                Err(e) => {
                    &&& e == ErrorCode::ReplyDataTooLarge
                    &&& bytes_of(*old(buf)).len() + 8 > isize::MAX
                    &&& bytes_of(*final(buf)) == bytes_of(*old(buf))
                },
            },
    {
        if sink::remaining_mut(buf) < self.serial_size() {
            return Err(ErrorCode::ReplyDataTooLarge);
        }
        sink::put_u32_le(buf, self.interface_handle);
        sink::put_u16_le(buf, self.time_out);
        sink::put_u16_le(buf, self.item_count);
        proof {
            assert(bytes_of(*buf) =~= bytes_of(*old(buf)) + self.spec_enc());
        }
        Ok(())
    }
}

impl Default for SendData {
    fn default() -> (r: Self)
        ensures
            r.interface_handle == 0,
            r.time_out == 0,
            r.item_count == 0,
    {
        SendData { interface_handle: 0, time_out: 0, item_count: 0 }
    }
}

} // verus!
