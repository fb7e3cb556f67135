//! The ListServices reply body: the communications service item with its
//! encapsulation version, capability flags and fixed service name.

use vstd::prelude::*;

use crate::eip::EipResult;
use crate::encapsulation::VERSION;
use crate::error_code::ErrorCode;
use crate::item::{Id, Item};
use crate::reader::Reader;
use crate::sink;
use crate::sink::bytes_of;
use crate::wire::{le16, u16_le_val};
use bytes::BytesMut;

verus! {

/// A capability flag word.
#[derive(Clone, Copy, Debug, PartialEq, Eq, Structural)]
pub struct Capability(pub u16);

impl Default for Capability {
    fn default() -> (r: Self)
        ensures
            r.0 == 0,
    {
        Capability(0)
    }
}

/// The fixed service name carried in the ListServices reply.
pub open spec fn spec_service_name() -> Seq<u8> {
    seq![
        0x43u8,
        0x6fu8,
        0x6du8,
        0x6du8,
        0x75u8,
        0x6eu8,
        0x69u8,
        0x63u8,
        0x61u8,
        0x74u8,
        0x69u8,
        0x6fu8,
        0x6eu8,
        0x73u8,
        0u8,
        0u8,
    ]
}

/// The communications service description: its item header, encapsulation
/// version, capability flags, and fixed 16-byte name.
#[derive(Clone, Debug, PartialEq)]
pub struct Services {
    /// The item header carrying the type id and body length
    pub item: Item,
    /// Version of the encapsulation
    pub encapsulation_version: u16,
    /// Capability flags
    pub capability: Capability,
    /// Service name
    pub name: [u8; 16],
}

impl Services {
    pub const EIP_ENCAPSULATION: u16 = 0x0020;

    pub const SUPPORT_CLASS_01: u16 = 0x0100;

    /// The wire form of the body that follows the item header.
    pub open spec fn spec_body_enc(self) -> Seq<u8> {
        le16(self.encapsulation_version) + le16(self.capability.0) + self.name@
    }

    /// The wire form: the item header, then the body.
    pub open spec fn spec_enc(self) -> Seq<u8> {
        self.item.spec_enc() + self.spec_body_enc()
    }

    /// Create the server side service description.
    pub fn server() -> (r: Self)
        ensures
            r.item.type_id.0 == Item::SERVICES,
            r.item.len == 20,
            r.encapsulation_version == VERSION,
            r.capability.0 == (Services::EIP_ENCAPSULATION | Services::SUPPORT_CLASS_01),
            r.name@ == spec_service_name(),
    {
        let name: [u8; 16] = [
            0x43,
            0x6f,
            0x6d,
            0x6d,
            0x75,
            0x6e,
            0x69,
            0x63,
            0x61,
            0x74,
            0x69,
            0x6f,
            0x6e,
            0x73,
            0,
            0,
        ];
        proof {
            assert(name@ =~= spec_service_name());
        }
        Services {
            item: Item::new(
                Id(Item::SERVICES),
                2  // encapsulation_version
                 + 2  // capability
                 + 16,  // name
            ),
            encapsulation_version: VERSION,
            capability: Capability(Self::EIP_ENCAPSULATION | Self::SUPPORT_CLASS_01),
            name,
        }
    }

    /// Get the serialized size of the body in bytes.
    pub fn serial_size(&self) -> (r: usize)
        ensures
            r == 20,
    {
        2  // encapsulation_version
         + 2  // capability
         + 16
    }

    /// List services reply: an item count of one, then this description.
    pub fn list(&self, buf: &mut BytesMut) -> (r: EipResult)
        ensures
            match r {
                Ok(()) => {
                    &&& self.item.len <= 0xffff
                    &&& bytes_of(*old(buf)).len() + 26 <= isize::MAX
                    &&& bytes_of(*final(buf)) == bytes_of(*old(buf)) + le16(1) + self.spec_enc()
                },
                Err(e) => e == ErrorCode::ReplyDataTooLarge && (self.item.len > 0xffff || bytes_of(
                    *old(buf),
                ).len() + 26 > isize::MAX),
            },
    {
        if sink::remaining_mut(buf) < 2 {
            // room for the item count
            return Err(ErrorCode::ReplyDataTooLarge);
        }
        sink::put_u16_le(buf, 1);  // only one item
        self.serialize(buf)?;
        proof {
            assert(bytes_of(*buf) =~= bytes_of(*old(buf)) + le16(1) + self.spec_enc());
        }
        Ok(())
    }

    /// Deserialize all fields.
    pub fn deserialize(&mut self, buf: &mut Reader) -> (r: EipResult)
        ensures
            match r {
                Ok(()) => ({
                    let b = old(buf).rest();
                    &&& b.len() >= 24
                    &&& final(self).item.type_id.0 == u16_le_val(b[0], b[1])
                    &&& final(self).item.len == u16_le_val(b[2], b[3])
                    &&& final(self).encapsulation_version == u16_le_val(b[4], b[5])
                    &&& final(self).capability.0 == u16_le_val(b[6], b[7])
                    &&& final(self).name@ == b.subrange(8, 24)
                    &&& final(buf).rest() == b.skip(24)
                }),
                Err(e) => {
                    &&& e == ErrorCode::NotEnoughData
                    &&& old(buf).rest().len() < 24
                    &&& (old(buf).rest().len() < 4 ==> *final(buf) == *old(buf) && *final(self)
                        == *old(self))
                    &&& (old(buf).rest().len() >= 4 ==> final(buf).rest() == old(buf).rest().skip(
                        4,
                    ))
                },
            },
    {
        self.item.deserialize(buf)?;
        let ghost b = old(buf).rest();
        if buf.remaining() < self.serial_size() {
            return Err(ErrorCode::NotEnoughData);
        }
        self.encapsulation_version = buf.get_u16_le();
        proof {
            assert(buf.rest()[0] == b[6] && buf.rest()[1] == b[7]);
        }
        self.capability = Capability(buf.get_u16_le());
        proof {
            assert(buf.rest() =~= b.skip(8));
        }
        let n = buf.copy_bytes(16);
        self.name = [
            n[0],
            n[1],
            n[2],
            n[3],
            n[4],
            n[5],
            n[6],
            n[7],
            n[8],
            n[9],
            n[10],
            n[11],
            n[12],
            n[13],
            n[14],
            n[15],
        ];
        proof {
            assert(self.name@ =~= b.subrange(8, 24));
            assert(buf.rest() =~= b.skip(24));
        }
        Ok(())
    }

    /// Serialize all fields: the item header, then the body.
    pub fn serialize(&self, buf: &mut BytesMut) -> (r: EipResult)
        ensures
            match r {
                Ok(()) => {
                    &&& self.item.len <= 0xffff
                    &&& bytes_of(*old(buf)).len() + 24 <= isize::MAX
                    &&& bytes_of(*final(buf)) == bytes_of(*old(buf)) + self.spec_enc()
                },
                Err(e) => {
                    &&& e == ErrorCode::ReplyDataTooLarge
                    &&& (self.item.len > 0xffff || bytes_of(*old(buf)).len() + 24 > isize::MAX)
                    &&& (self.item.len > 0xffff || bytes_of(*old(buf)).len() + 4 > isize::MAX
                        ==> bytes_of(*final(buf)) == bytes_of(*old(buf)))
                },
            },
    {
        self.item.serialize(buf)?;
        if sink::remaining_mut(buf) < self.serial_size() {
            return Err(ErrorCode::ReplyDataTooLarge);
        }
        sink::put_u16_le(buf, self.encapsulation_version);
        sink::put_u16_le(buf, self.capability.0);
        sink::put_slice(buf, self.name.as_slice());
        proof {
            assert(bytes_of(*buf) =~= bytes_of(*old(buf)) + self.spec_enc());
        }
        Ok(())
    }
}

impl Default for Services {
    fn default() -> (r: Self)
        ensures
            r.item.type_id.0 == 0,
            r.item.len == 0,
            r.encapsulation_version == 0,
            r.capability.0 == 0,
            r.name@ == Seq::<u8>::new(16, |i: int| 0u8),
    {
        let r = Services {
            item: Item::default(),
            encapsulation_version: 0,
            capability: Capability(0),
            name: [0, 0, 0, 0, 0, 0, 0, 0, 0, 0, 0, 0, 0, 0, 0, 0],
        };
        proof {
            assert(r.name@ =~= Seq::<u8>::new(16, |i: int| 0u8));
        }
        r
    }
}

} // verus!
