//! The socket-address record: a fixed 16-byte layout and the one codec in
//! this stack that uses network (big-endian) byte order.

use vstd::prelude::*;

use crate::eip::EipResult;
use crate::error_code::ErrorCode;
use crate::reader::Reader;
use crate::sink;
use crate::sink::bytes_of;
use crate::wire::{be16, be32, i16_of_u16, u16_be_val, u16_of_i16, u32_be_val};
use bytes::BytesMut;

verus! {

/// A socket address family.
#[derive(Clone, Copy, Debug, PartialEq, Eq, Structural)]
pub struct Family(pub i16);

impl Default for Family {
    fn default() -> (r: Self)
        ensures
            r.0 == 0,
    {
        Family(0)
    }
}

/// A socket address: family, port and host address, sent big-endian,
/// padded with eight zero bytes.
#[derive(Clone, Debug, PartialEq)]
pub struct SocketAddress {
    pub family: Family,
    pub port: u16,
    pub addr: u32,
    pub zero: [u8; 8],
}

impl SocketAddress {
    pub const AF_INET: i16 = 2;

    /// The wire form: family, port and address big-endian, then the
    /// padding bytes.
    pub open spec fn spec_enc(self) -> Seq<u8> {
        be16(u16_of_i16(self.family.0)) + be16(self.port) + be32(self.addr) + self.zero@
    }

    /// Create a new server side instance, with the internet family and
    /// zero padding.
    pub fn server(addr: u32, port: u16) -> (r: Self)
        ensures
            r.family.0 == SocketAddress::AF_INET,
            r.port == port,
            r.addr == addr,
            r.zero@ == Seq::<u8>::new(8, |i: int| 0u8),
    {
        let r = SocketAddress {
            family: Family(SocketAddress::AF_INET),
            port,
            addr,
            zero: [0, 0, 0, 0, 0, 0, 0, 0],
        };
        proof {
            assert(r.zero@ =~= Seq::<u8>::new(8, |i: int| 0u8));
        }
        r
    }

    /// Get the serialized size in bytes.
    pub fn serial_size(&self) -> (r: usize)
        ensures
            r == 16,
    {
        2  // family
         + 2  // port
         + 4  // addr
         + 8  // zero
    }

    /// Deserialize all fields; the record is received big-endian.
    pub fn deserialize(&mut self, buf: &mut Reader) -> (r: EipResult)
        ensures
            match r {
                Ok(()) => ({
                    let b = old(buf).rest();
                    &&& b.len() >= 16
                    &&& final(self).family.0 == i16_of_u16(u16_be_val(b[0], b[1]))
                    &&& final(self).port == u16_be_val(b[2], b[3])
                    &&& final(self).addr == u32_be_val(b[4], b[5], b[6], b[7])
                    &&& final(self).zero@ == b.subrange(8, 16)
                    &&& final(buf).rest() == b.skip(16)
                }),
                Err(e) => {
                    &&& e == ErrorCode::NotEnoughData
                    &&& old(buf).rest().len() < 16
                    &&& *final(self) == *old(self)
                    &&& *final(buf) == *old(buf)
                },
            },
    {
        if buf.remaining() < self.serial_size() {
            return Err(ErrorCode::NotEnoughData);
        }
        let ghost b = buf.rest();
        self.family = Family(buf.get_i16_be());
        proof {
            assert(buf.rest()[0] == b[2] && buf.rest()[1] == b[3]);
        }
        self.port = buf.get_u16_be();
        proof {
            assert(buf.rest()[0] == b[4] && buf.rest()[1] == b[5]);
            assert(buf.rest()[2] == b[6] && buf.rest()[3] == b[7]);
        }
        self.addr = buf.get_u32_be();
        proof {
            assert(buf.rest() =~= b.skip(8));
        }
        let pad = buf.copy_bytes(8);
        self.zero = [pad[0], pad[1], pad[2], pad[3], pad[4], pad[5], pad[6], pad[7]];
        proof {
            assert(self.zero@ =~= b.subrange(8, 16));
            assert(buf.rest() =~= b.skip(16));
        }
        Ok(())
    }

    /// Serialize all fields; the record must be sent big-endian.
    pub fn serialize(&self, buf: &mut BytesMut) -> (r: EipResult)
        ensures
            match r {
                Ok(()) => {
                    &&& bytes_of(*old(buf)).len() + 16 <= isize::MAX
                    &&& bytes_of(*final(buf)) == bytes_of(*old(buf)) + self.spec_enc()
                },
                Err(e) => {
                    &&& e == ErrorCode::ReplyDataTooLarge
                    &&& bytes_of(*old(buf)).len() + 16 > isize::MAX
                    &&& bytes_of(*final(buf)) == bytes_of(*old(buf))
                },
            },
    {
        if sink::remaining_mut(buf) < self.serial_size() {
            return Err(ErrorCode::ReplyDataTooLarge);
        }
        sink::put_i16_be(buf, self.family.0);
        sink::put_u16_be(buf, self.port);
        sink::put_u32_be(buf, self.addr);
        sink::put_slice(buf, self.zero.as_slice());
        proof {
            assert(bytes_of(*buf) =~= bytes_of(*old(buf)) + self.spec_enc());
        }
        Ok(())
    }
}

/// Wire round trip for the socket address: reading the big-endian bytes
/// of the record back restores its family, port and address.
pub proof fn lemma_socket_address_round_trip(s: SocketAddress)
    ensures
        i16_of_u16(u16_be_val(s.spec_enc()[0], s.spec_enc()[1])) == s.family.0,
        u16_be_val(s.spec_enc()[2], s.spec_enc()[3]) == s.port,
        u32_be_val(s.spec_enc()[4], s.spec_enc()[5], s.spec_enc()[6], s.spec_enc()[7]) == s.addr,
{
    crate::wire::lemma_u16_be_round_trip(u16_of_i16(s.family.0));
    crate::wire::lemma_i16_round_trip(s.family.0);
    crate::wire::lemma_u16_be_round_trip(s.port);
    crate::wire::lemma_u32_be_round_trip(s.addr);
}

/// Default is all fields zero.
impl Default for SocketAddress {
    fn default() -> (r: Self)
        ensures
            r.family.0 == 0,
            r.port == 0,
            r.addr == 0,
            r.zero@ == Seq::<u8>::new(8, |i: int| 0u8),
    {
        let r = SocketAddress { family: Family(0), port: 0, addr: 0, zero: [0, 0, 0, 0, 0, 0, 0, 0] };
        proof {
            assert(r.zero@ =~= Seq::<u8>::new(8, |i: int| 0u8));
        }
        r
    }
}

} // verus!
