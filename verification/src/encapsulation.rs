//! The outer encapsulation header: a fixed 24-byte little-endian record
//! carried in front of every EtherNet/IP message.

use vstd::prelude::*;

use crate::eip;
use crate::eip::EipResult;
use crate::error_code::ErrorCode;
use crate::reader::Reader;
use crate::sink;
use crate::sink::bytes_of;
use crate::wire::{le16, le32, u16_le_val, u32_le_val};
use bytes::BytesMut;

verus! {

/// The protocol version this stack supports.
pub const VERSION: u16 = 1;

/// An encapsulation command code.
#[derive(Clone, Copy, Debug, PartialEq, Eq, Structural)]
pub struct Command(pub u16);

impl Default for Command {
    fn default() -> (r: Self)
        ensures
            r.0 == 0,
    {
        Command(0)
    }
}

/// The encapsulation header: command, body length, session identifier,
/// status, the sender's context, and option flags.
#[derive(Clone, Debug, PartialEq)]
pub struct Encapsulation {
    /// Request command
    pub command: Command,
    /// Number of body bytes that follow the header
    pub len: u16,
    /// Session identifier
    pub session: u32,
    /// Status code
    pub status: u32,
    /// Sender context
    pub context: [u8; 8],
    /// Option flags
    pub options: u32,
}

impl Encapsulation {
    pub const NOP: u16 = 0x00;

    pub const LIST_SERVICES: u16 = 0x04;

    pub const LIST_IDENTITY: u16 = 0x63;

    pub const REGISTER_SESSION: u16 = 0x65;

    pub const UNREGISTER_SESSION: u16 = 0x66;

    pub const SEND_RR_DATA: u16 = 0x6f;

    /// The wire form: all fields little-endian, the context verbatim.
    pub open spec fn spec_enc(self) -> Seq<u8> {
        le16(self.command.0) + le16(self.len) + le32(self.session) + le32(self.status)
            + self.context@ + le32(self.options)
    }

    /// Get the serialized size in bytes.
    pub fn serial_size(&self) -> (r: usize)
        ensures
            r == 24,
    {
        2  // command
         + 2  // len
         + 4  // session
         + 4  // status
         + 8  // context
         + 4  // options
    }

    /// Reserve room in a sink to serialize this later; see
    /// [`eip::split_off`].
    pub fn split_off(&self, buf: &mut BytesMut) -> (r: Result<BytesMut, ErrorCode>)
        ensures
            match r {
                Ok(rest) => {
                    &&& bytes_of(*old(buf)).len() + 24 <= isize::MAX
                    &&& bytes_of(rest) == Seq::<u8>::empty()
                    &&& bytes_of(*final(buf)) == bytes_of(*old(buf))
                },
                Err(e) => {
                    &&& e == ErrorCode::ReplyDataTooLarge
                    &&& bytes_of(*old(buf)).len() + 24 > isize::MAX
                    &&& bytes_of(*final(buf)) == bytes_of(*old(buf))
                },
            },
    {
        eip::split_off(buf, self.serial_size())
    }

    /// Deserialize all fields.
    pub fn deserialize(&mut self, buf: &mut Reader) -> (r: EipResult)
        ensures
            match r {
                Ok(()) => ({
                    let b = old(buf).rest();
                    &&& b.len() >= 24
                    &&& final(self).command.0 == u16_le_val(b[0], b[1])
                    &&& final(self).len == u16_le_val(b[2], b[3])
                    &&& final(self).session == u32_le_val(b[4], b[5], b[6], b[7])
                    &&& final(self).status == u32_le_val(b[8], b[9], b[10], b[11])
                    &&& final(self).context@ == b.subrange(12, 20)
                    &&& final(self).options == u32_le_val(b[20], b[21], b[22], b[23])
                    &&& final(buf).rest() == b.skip(24)
                }),
                Err(e) => {
                    &&& e == ErrorCode::NotEnoughData
                    &&& old(buf).rest().len() < 24
                    &&& *final(self) == *old(self)
                    &&& *final(buf) == *old(buf)
                },
            },
    {
        if buf.remaining() < self.serial_size() {
            return Err(ErrorCode::NotEnoughData);
        }
        let ghost b = buf.rest();
        self.command = Command(buf.get_u16_le());
        self.len = buf.get_u16_le();
        self.session = buf.get_u32_le();
        self.status = buf.get_u32_le();
        proof {
            assert(buf.rest() =~= b.skip(12));
        }
        let ctx = buf.copy_bytes(8);
        self.context = [ctx[0], ctx[1], ctx[2], ctx[3], ctx[4], ctx[5], ctx[6], ctx[7]];
        proof {
            assert(self.context@ =~= b.subrange(12, 20));
            assert(buf.rest() =~= b.skip(20));
        }
        self.options = buf.get_u32_le();
        proof {
            assert(buf.rest() =~= b.skip(24));
        }
        Ok(())
    }

    /// Serialize all fields.
    pub fn serialize(&self, buf: &mut BytesMut) -> (r: EipResult)
        ensures
            match r {
                Ok(()) => {
                    &&& bytes_of(*old(buf)).len() + 24 <= isize::MAX
                    &&& bytes_of(*final(buf)) == bytes_of(*old(buf)) + self.spec_enc()
                },
                Err(e) => {
                    &&& e == ErrorCode::ReplyDataTooLarge
                    &&& bytes_of(*old(buf)).len() + 24 > isize::MAX
                    &&& bytes_of(*final(buf)) == bytes_of(*old(buf))
                },
            },
    {
        if sink::remaining_mut(buf) < self.serial_size() {
            return Err(ErrorCode::ReplyDataTooLarge);
        }
        sink::put_u16_le(buf, self.command.0);
        sink::put_u16_le(buf, self.len);
        sink::put_u32_le(buf, self.session);
        sink::put_u32_le(buf, self.status);
        sink::put_slice(buf, self.context.as_slice());
        sink::put_u32_le(buf, self.options);
        proof {
            assert(bytes_of(*buf) =~= bytes_of(*old(buf)) + self.spec_enc());
        }
        Ok(())
    }
}

impl Default for Encapsulation {
    fn default() -> (r: Self)
        ensures
            r.command.0 == 0,
            r.len == 0,
            r.session == 0,
            r.status == 0,
            r.context@ == Seq::<u8>::new(8, |i: int| 0u8),
            r.options == 0,
    {
        let r = Encapsulation {
            command: Command(0),
            len: 0,
            session: 0,
            status: 0,
            context: [0, 0, 0, 0, 0, 0, 0, 0],
            options: 0,
        };
        proof {
            assert(r.context@ =~= Seq::<u8>::new(8, |i: int| 0u8));
        }
        r
    }
}

} // verus!
