//! The bounded-width attribute family: integer holders of every width and
//! signedness and a capacity-bounded string holder, each paired with an
//! access-control mask that gates wire access (decode/encode) but never
//! direct program access.

use vstd::prelude::*;

use crate::eip::EipResult;
use crate::error_code::ErrorCode;
use crate::reader::Reader;
use crate::sink;
use crate::sink::bytes_of;
use crate::wire::{
    i16_of_u16, i32_of_u32, i8_of_u8, le16, le32, lemma_i16_round_trip, lemma_i32_round_trip,
    lemma_i8_round_trip, lemma_u16_le_round_trip, lemma_u32_le_round_trip, u16_le_val, u16_of_i16,
    u32_le_val, u32_of_i32, u8_of_i8,
};
use bytes::BytesMut;
use vstd::slice::slice_to_vec;
use vstd::utf8::{encode_utf8, valid_utf8};

verus! {

/// Relies on `core::str::from_utf8`: it returns `Ok` exactly when the bytes
/// are valid UTF-8.
#[verifier::external_body]
fn utf8_check(b: &[u8]) -> (r: bool)
    ensures
        r == valid_utf8(b@),
{
    core::str::from_utf8(b).is_ok()
}

/// Attribute access levels.
#[derive(Clone, Copy, Debug, PartialEq)]
pub struct AccessCode(u8);

impl AccessCode {
    pub const NONE: u8 = 0x00;

    pub const GET: u8 = 0x01;

    pub const SET: u8 = 0x02;

    /// The raw access bits.
    pub closed spec fn spec_code(self) -> u8 {
        self.0
    }

    /// Whether the attribute may be read over the wire.
    pub open spec fn spec_getable(self) -> bool {
        self.spec_code() & AccessCode::GET != 0
    }

    /// Whether the attribute may be written over the wire.
    pub open spec fn spec_settable(self) -> bool {
        self.spec_code() & AccessCode::SET != 0
    }

    /// Create an instance; the bit values can be or-ed together.
    pub fn new(code: u8) -> (r: Self)
        ensures
            r.spec_code() == code,
    {
        AccessCode(code)
    }

    /// Can the attribute be retrieved over the wire.
    #[inline]
    pub fn getable(&self) -> (r: bool)
        ensures
            r == self.spec_getable(),
    {
        (self.0 & AccessCode::GET) != 0
    }

    /// Can the attribute be changed over the wire.
    #[inline]
    pub fn settable(&self) -> (r: bool)
        ensures
            r == self.spec_settable(),
    {
        (self.0 & AccessCode::SET) != 0
    }
}

/// How each of the four code values this crate builds reads back through
/// the two access bits.
pub proof fn lemma_access_code_table()
    ensures
        (0x00u8 & 0x01u8) == 0 && (0x00u8 & 0x02u8) == 0,
        (0x01u8 & 0x01u8) != 0 && (0x01u8 & 0x02u8) == 0,
        (0x02u8 & 0x01u8) == 0 && (0x02u8 & 0x02u8) != 0,
        (0x03u8 & 0x01u8) != 0 && (0x03u8 & 0x02u8) != 0,
        (0x01u8 | 0x02u8) == 0x03u8,
{
    assert((0x00u8 & 0x01u8) == 0 && (0x00u8 & 0x02u8) == 0 && (0x01u8 & 0x01u8) != 0 && (0x01u8
        & 0x02u8) == 0 && (0x02u8 & 0x01u8) == 0 && (0x02u8 & 0x02u8) != 0 && (0x03u8 & 0x01u8)
        != 0 && (0x03u8 & 0x02u8) != 0 && (0x01u8 | 0x02u8) == 0x03u8) by (bit_vector);
}

/// Default is access code with both GET and SET.
impl Default for AccessCode {
    fn default() -> (r: Self)
        ensures
            r.spec_getable(),
            r.spec_settable(),
    {
        proof {
            lemma_access_code_table();
        }
        AccessCode(AccessCode::GET | AccessCode::SET)
    }
}

/// Attribute that holds a signed 8 bit integer.
#[derive(Clone, Debug, PartialEq)]
pub struct Sint {
    /// The internal value
    val: i8,
    /// The allowed access methods
    acc: AccessCode,
}

impl Sint {
    /// The internal value.
    pub closed spec fn spec_val(self) -> i8 {
        self.val
    }

    /// The access mask attached at construction.
    pub closed spec fn spec_acc(self) -> AccessCode {
        self.acc
    }

    /// The wire form: one byte, two's complement.
    pub open spec fn spec_enc(self) -> Seq<u8> {
        seq![u8_of_i8(self.spec_val())]
    }

    /// Creates an attribute with an initial value and the accessibility via
    /// the wire interface; the internal get/set are not influenced.
    pub fn new(val: i8, acc: AccessCode) -> (r: Self)
        ensures
            r.spec_val() == val,
            r.spec_acc() == acc,
    {
        Sint { val, acc }
    }

    /// Retrieves the value from the attribute.
    #[inline]
    pub fn get(&self) -> (r: i8)
        ensures
            r == self.spec_val(),
    {
        self.val
    }

    /// Changes the value of the attribute.
    #[inline]
    pub fn set(&mut self, val: i8)
        ensures
            final(self).spec_val() == val,
            final(self).spec_acc() == old(self).spec_acc(),
    {
        self.val = val;
    }

    /// Get the serialized size in bytes.
    pub fn serial_size(&self) -> (r: usize)
        ensures
            r == 1,
    {
        1
    }

    /// Read the value from a message buffer, gated by the access mask.
    pub fn deserialize(&mut self, buf: &mut Reader) -> (r: EipResult)
        ensures
            match r {
                Ok(()) => {
                    &&& old(self).spec_acc().spec_settable()
                    &&& old(buf).rest().len() >= 1
                    &&& final(self).spec_val() == i8_of_u8(old(buf).rest()[0])
                    &&& final(self).spec_acc() == old(self).spec_acc()
                    &&& final(buf).rest() == old(buf).rest().skip(1)
                },
                Err(e) => {
                    &&& *final(self) == *old(self)
                    &&& *final(buf) == *old(buf)
                    &&& if !old(self).spec_acc().spec_settable() {
                        e == ErrorCode::AttributeNotSettable
                    } else {
                        e == ErrorCode::NotEnoughData && old(buf).rest().len() < 1
                    }
                },
            },
    {
        if !self.acc.settable() {
            return Err(ErrorCode::AttributeNotSettable);
        }
        if buf.remaining() < 1 {
            return Err(ErrorCode::NotEnoughData);
        }
        self.val = buf.get_i8();
        Ok(())
    }

    /// Write the value to a message buffer, gated by the access mask.
    pub fn serialize(&self, buf: &mut BytesMut) -> (r: EipResult)
        ensures
            match r {
                Ok(()) => {
                    &&& self.spec_acc().spec_getable()
                    &&& bytes_of(*old(buf)).len() + 1 <= isize::MAX
                    &&& bytes_of(*final(buf)) == bytes_of(*old(buf)) + self.spec_enc()
                },
                Err(e) => {
                    &&& bytes_of(*final(buf)) == bytes_of(*old(buf))
                    &&& if !self.spec_acc().spec_getable() {
                        e == ErrorCode::AttributeNotGettable
                    } else {
                        e == ErrorCode::ReplyDataTooLarge && bytes_of(*old(buf)).len() + 1
                            > isize::MAX
                    }
                },
            },
    {
        if !self.acc.getable() {
            return Err(ErrorCode::AttributeNotGettable);
        }
        if sink::remaining_mut(buf) < 1 {
            return Err(ErrorCode::ReplyDataTooLarge);
        }
        sink::put_i8(buf, self.val);
        Ok(())
    }
}

/// Default is value zero with full access.
impl Default for Sint {
    fn default() -> (r: Self)
        ensures
            r.spec_val() == 0,
            r.spec_acc().spec_getable(),
            r.spec_acc().spec_settable(),
    {
        Sint { val: 0, acc: AccessCode::default() }
    }
}

/// Attribute that holds a signed 16 bit integer.
#[derive(Clone, Debug, PartialEq)]
pub struct Int {
    /// The internal value
    val: i16,
    /// The allowed access methods
    acc: AccessCode,
}

impl Int {
    /// The internal value.
    pub closed spec fn spec_val(self) -> i16 {
        self.val
    }

    /// The access mask attached at construction.
    pub closed spec fn spec_acc(self) -> AccessCode {
        self.acc
    }

    /// The wire form: two little-endian bytes, two's complement.
    pub open spec fn spec_enc(self) -> Seq<u8> {
        le16(u16_of_i16(self.spec_val()))
    }

    /// Creates an attribute with an initial value and the accessibility via
    /// the wire interface; the internal get/set are not influenced.
    pub fn new(val: i16, acc: AccessCode) -> (r: Self)
        ensures
            r.spec_val() == val,
            r.spec_acc() == acc,
    {
        Int { val, acc }
    }

    /// Retrieves the value from the attribute.
    #[inline]
    pub fn get(&self) -> (r: i16)
        ensures
            r == self.spec_val(),
    {
        self.val
    }

    /// Changes the value of the attribute.
    #[inline]
    pub fn set(&mut self, val: i16)
        ensures
            final(self).spec_val() == val,
            final(self).spec_acc() == old(self).spec_acc(),
    {
        self.val = val;
    }

    /// Get the serialized size in bytes.
    pub fn serial_size(&self) -> (r: usize)
        ensures
            r == 2,
    {
        2
    }

    /// Read the value from a message buffer, gated by the access mask.
    pub fn deserialize(&mut self, buf: &mut Reader) -> (r: EipResult)
        ensures
            match r {
                Ok(()) => {
                    &&& old(self).spec_acc().spec_settable()
                    &&& old(buf).rest().len() >= 2
                    &&& final(self).spec_val() == i16_of_u16(
                        u16_le_val(old(buf).rest()[0], old(buf).rest()[1]),
                    )
                    &&& final(self).spec_acc() == old(self).spec_acc()
                    &&& final(buf).rest() == old(buf).rest().skip(2)
                },
                Err(e) => {
                    &&& *final(self) == *old(self)
                    &&& *final(buf) == *old(buf)
                    &&& if !old(self).spec_acc().spec_settable() {
                        e == ErrorCode::AttributeNotSettable
                    } else {
                        e == ErrorCode::NotEnoughData && old(buf).rest().len() < 2
                    }
                },
            },
    {
        if !self.acc.settable() {
            return Err(ErrorCode::AttributeNotSettable);
        }
        if buf.remaining() < 2 {
            return Err(ErrorCode::NotEnoughData);
        }
        self.val = buf.get_i16_le();
        Ok(())
    }

    /// Write the value to a message buffer, gated by the access mask.
    pub fn serialize(&self, buf: &mut BytesMut) -> (r: EipResult)
        ensures
            match r {
                Ok(()) => {
                    &&& self.spec_acc().spec_getable()
                    &&& bytes_of(*old(buf)).len() + 2 <= isize::MAX
                    &&& bytes_of(*final(buf)) == bytes_of(*old(buf)) + self.spec_enc()
                },
                Err(e) => {
                    &&& bytes_of(*final(buf)) == bytes_of(*old(buf))
                    &&& if !self.spec_acc().spec_getable() {
                        e == ErrorCode::AttributeNotGettable
                    } else {
                        e == ErrorCode::ReplyDataTooLarge && bytes_of(*old(buf)).len() + 2
                            > isize::MAX
                    }
                },
            },
    {
        if !self.acc.getable() {
            return Err(ErrorCode::AttributeNotGettable);
        }
        if sink::remaining_mut(buf) < 2 {
            return Err(ErrorCode::ReplyDataTooLarge);
        }
        sink::put_i16_le(buf, self.val);
        Ok(())
    }
}

/// Default is value zero with full access.
impl Default for Int {
    fn default() -> (r: Self)
        ensures
            r.spec_val() == 0,
            r.spec_acc().spec_getable(),
            r.spec_acc().spec_settable(),
    {
        Int { val: 0, acc: AccessCode::default() }
    }
}

/// Attribute that holds a signed 32 bit integer.
#[derive(Clone, Debug, PartialEq)]
pub struct DInt {
    /// The internal value
    val: i32,
    /// The allowed access methods
    acc: AccessCode,
}

impl DInt {
    /// The internal value.
    pub closed spec fn spec_val(self) -> i32 {
        self.val
    }

    /// The access mask attached at construction.
    pub closed spec fn spec_acc(self) -> AccessCode {
        self.acc
    }

    /// The wire form: four little-endian bytes, two's complement.
    pub open spec fn spec_enc(self) -> Seq<u8> {
        le32(u32_of_i32(self.spec_val()))
    }

    /// Creates an attribute with an initial value and the accessibility via
    /// the wire interface; the internal get/set are not influenced.
    pub fn new(val: i32, acc: AccessCode) -> (r: Self)
        ensures
            r.spec_val() == val,
            r.spec_acc() == acc,
    {
        DInt { val, acc }
    }

    /// Retrieves the value from the attribute.
    #[inline]
    pub fn get(&self) -> (r: i32)
        ensures
            r == self.spec_val(),
    {
        self.val
    }

    /// Changes the value of the attribute.
    #[inline]
    pub fn set(&mut self, val: i32)
        ensures
            final(self).spec_val() == val,
            final(self).spec_acc() == old(self).spec_acc(),
    {
        self.val = val;
    }

    /// Get the serialized size in bytes.
    pub fn serial_size(&self) -> (r: usize)
        ensures
            r == 4,
    {
        4
    }

    /// Read the value from a message buffer, gated by the access mask.
    pub fn deserialize(&mut self, buf: &mut Reader) -> (r: EipResult)
        ensures
            match r {
                Ok(()) => {
                    &&& old(self).spec_acc().spec_settable()
                    &&& old(buf).rest().len() >= 4
                    &&& final(self).spec_val() == i32_of_u32(
                        u32_le_val(
                            old(buf).rest()[0],
                            old(buf).rest()[1],
                            old(buf).rest()[2],
                            old(buf).rest()[3],
                        ),
                    )
                    &&& final(self).spec_acc() == old(self).spec_acc()
                    &&& final(buf).rest() == old(buf).rest().skip(4)
                },
                Err(e) => {
                    &&& *final(self) == *old(self)
                    &&& *final(buf) == *old(buf)
                    &&& if !old(self).spec_acc().spec_settable() {
                        e == ErrorCode::AttributeNotSettable
                    } else {
                        e == ErrorCode::NotEnoughData && old(buf).rest().len() < 4
                    }
                },
            },
    {
        if !self.acc.settable() {
            return Err(ErrorCode::AttributeNotSettable);
        }
        if buf.remaining() < 4 {
            return Err(ErrorCode::NotEnoughData);
        }
        self.val = buf.get_i32_le();
        Ok(())
    }

    /// Write the value to a message buffer, gated by the access mask.
    pub fn serialize(&self, buf: &mut BytesMut) -> (r: EipResult)
        ensures
            match r {
                Ok(()) => {
                    &&& self.spec_acc().spec_getable()
                    &&& bytes_of(*old(buf)).len() + 4 <= isize::MAX
                    &&& bytes_of(*final(buf)) == bytes_of(*old(buf)) + self.spec_enc()
                },
                Err(e) => {
                    &&& bytes_of(*final(buf)) == bytes_of(*old(buf))
                    &&& if !self.spec_acc().spec_getable() {
                        e == ErrorCode::AttributeNotGettable
                    } else {
                        e == ErrorCode::ReplyDataTooLarge && bytes_of(*old(buf)).len() + 4
                            > isize::MAX
                    }
                },
            },
    {
        if !self.acc.getable() {
            return Err(ErrorCode::AttributeNotGettable);
        }
        if sink::remaining_mut(buf) < 4 {
            return Err(ErrorCode::ReplyDataTooLarge);
        }
        sink::put_i32_le(buf, self.val);
        Ok(())
    }
}

/// Default is value zero with full access.
impl Default for DInt {
    fn default() -> (r: Self)
        ensures
            r.spec_val() == 0,
            r.spec_acc().spec_getable(),
            r.spec_acc().spec_settable(),
    {
        DInt { val: 0, acc: AccessCode::default() }
    }
}

/// Attribute that holds an unsigned 8 bit integer.
#[derive(Clone, Debug, PartialEq)]
pub struct Usint {
    /// The internal value
    val: u8,
    /// The allowed access methods
    acc: AccessCode,
}

impl Usint {
    /// The internal value.
    pub closed spec fn spec_val(self) -> u8 {
        self.val
    }

    /// The access mask attached at construction.
    pub closed spec fn spec_acc(self) -> AccessCode {
        self.acc
    }

    /// The wire form: the value's single byte.
    pub open spec fn spec_enc(self) -> Seq<u8> {
        seq![self.spec_val()]
    }

    /// Creates an attribute with an initial value and the accessibility via
    /// the wire interface; the internal get/set are not influenced.
    pub fn new(val: u8, acc: AccessCode) -> (r: Self)
        ensures
            r.spec_val() == val,
            r.spec_acc() == acc,
    {
        Usint { val, acc }
    }

    /// Retrieves the value from the attribute.
    #[inline]
    pub fn get(&self) -> (r: u8)
        ensures
            r == self.spec_val(),
    {
        self.val
    }

    /// Changes the value of the attribute.
    #[inline]
    pub fn set(&mut self, val: u8)
        ensures
            final(self).spec_val() == val,
            final(self).spec_acc() == old(self).spec_acc(),
    {
        self.val = val;
    }

    /// Get the serialized size in bytes.
    pub fn serial_size(&self) -> (r: usize)
        ensures
            r == 1,
    {
        1
    }

    /// Read the value from a message buffer, gated by the access mask.
    pub fn deserialize(&mut self, buf: &mut Reader) -> (r: EipResult)
        ensures
            match r {
                Ok(()) => {
                    &&& old(self).spec_acc().spec_settable()
                    &&& old(buf).rest().len() >= 1
                    &&& final(self).spec_val() == old(buf).rest()[0]
                    &&& final(self).spec_acc() == old(self).spec_acc()
                    &&& final(buf).rest() == old(buf).rest().skip(1)
                },
                Err(e) => {
                    &&& *final(self) == *old(self)
                    &&& *final(buf) == *old(buf)
                    &&& if !old(self).spec_acc().spec_settable() {
                        e == ErrorCode::AttributeNotSettable
                    } else {
                        e == ErrorCode::NotEnoughData && old(buf).rest().len() < 1
                    }
                },
            },
    {
        if !self.acc.settable() {
            return Err(ErrorCode::AttributeNotSettable);
        }
        if buf.remaining() < 1 {
            return Err(ErrorCode::NotEnoughData);
        }
        self.val = buf.get_u8();
        Ok(())
    }

    /// Write the value to a message buffer, gated by the access mask.
    pub fn serialize(&self, buf: &mut BytesMut) -> (r: EipResult)
        ensures
            match r {
                Ok(()) => {
                    &&& self.spec_acc().spec_getable()
                    &&& bytes_of(*old(buf)).len() + 1 <= isize::MAX
                    &&& bytes_of(*final(buf)) == bytes_of(*old(buf)) + self.spec_enc()
                },
                Err(e) => {
                    &&& bytes_of(*final(buf)) == bytes_of(*old(buf))
                    &&& if !self.spec_acc().spec_getable() {
                        e == ErrorCode::AttributeNotGettable
                    } else {
                        e == ErrorCode::ReplyDataTooLarge && bytes_of(*old(buf)).len() + 1
                            > isize::MAX
                    }
                },
            },
    {
        if !self.acc.getable() {
            return Err(ErrorCode::AttributeNotGettable);
        }
        if sink::remaining_mut(buf) < 1 {
            return Err(ErrorCode::ReplyDataTooLarge);
        }
        sink::put_u8(buf, self.val);
        Ok(())
    }
}

/// Default is value zero with full access.
impl Default for Usint {
    fn default() -> (r: Self)
        ensures
            r.spec_val() == 0,
            r.spec_acc().spec_getable(),
            r.spec_acc().spec_settable(),
    {
        Usint { val: 0, acc: AccessCode::default() }
    }
}

/// Attribute that holds an unsigned 16 bit integer.
#[derive(Clone, Debug, PartialEq)]
pub struct Uint {
    /// The internal value
    val: u16,
    /// The allowed access methods
    acc: AccessCode,
}

impl Uint {
    /// The internal value.
    pub closed spec fn spec_val(self) -> u16 {
        self.val
    }

    /// The access mask attached at construction.
    pub closed spec fn spec_acc(self) -> AccessCode {
        self.acc
    }

    /// The wire form: the value's two little-endian bytes.
    pub open spec fn spec_enc(self) -> Seq<u8> {
        le16(self.spec_val())
    }

    /// Creates an attribute with an initial value and the accessibility via
    /// the wire interface; the internal get/set are not influenced.
    pub fn new(val: u16, acc: AccessCode) -> (r: Self)
        ensures
            r.spec_val() == val,
            r.spec_acc() == acc,
    {
        Uint { val, acc }
    }

    /// Retrieves the value from the attribute.
    #[inline]
    pub fn get(&self) -> (r: u16)
        ensures
            r == self.spec_val(),
    {
        self.val
    }

    /// Changes the value of the attribute.
    #[inline]
    pub fn set(&mut self, val: u16)
        ensures
            final(self).spec_val() == val,
            final(self).spec_acc() == old(self).spec_acc(),
    {
        self.val = val;
    }

    /// Get the serialized size in bytes.
    pub fn serial_size(&self) -> (r: usize)
        ensures
            r == 2,
    {
        2
    }

    /// Read the value from a message buffer, gated by the access mask.
    pub fn deserialize(&mut self, buf: &mut Reader) -> (r: EipResult)
        ensures
            match r {
                Ok(()) => {
                    &&& old(self).spec_acc().spec_settable()
                    &&& old(buf).rest().len() >= 2
                    &&& final(self).spec_val() == u16_le_val(old(buf).rest()[0], old(buf).rest()[1])
                    &&& final(self).spec_acc() == old(self).spec_acc()
                    &&& final(buf).rest() == old(buf).rest().skip(2)
                },
                Err(e) => {
                    &&& *final(self) == *old(self)
                    &&& *final(buf) == *old(buf)
                    &&& if !old(self).spec_acc().spec_settable() {
                        e == ErrorCode::AttributeNotSettable
                    } else {
                        e == ErrorCode::NotEnoughData && old(buf).rest().len() < 2
                    }
                },
            },
    {
        if !self.acc.settable() {
            return Err(ErrorCode::AttributeNotSettable);
        }
        if buf.remaining() < 2 {
            return Err(ErrorCode::NotEnoughData);
        }
        self.val = buf.get_u16_le();
        Ok(())
    }

    /// Write the value to a message buffer, gated by the access mask.
    pub fn serialize(&self, buf: &mut BytesMut) -> (r: EipResult)
        ensures
            match r {
                Ok(()) => {
                    &&& self.spec_acc().spec_getable()
                    &&& bytes_of(*old(buf)).len() + 2 <= isize::MAX
                    &&& bytes_of(*final(buf)) == bytes_of(*old(buf)) + self.spec_enc()
                },
                Err(e) => {
                    &&& bytes_of(*final(buf)) == bytes_of(*old(buf))
                    &&& if !self.spec_acc().spec_getable() {
                        e == ErrorCode::AttributeNotGettable
                    } else {
                        e == ErrorCode::ReplyDataTooLarge && bytes_of(*old(buf)).len() + 2
                            > isize::MAX
                    }
                },
            },
    {
        if !self.acc.getable() {
            return Err(ErrorCode::AttributeNotGettable);
        }
        if sink::remaining_mut(buf) < 2 {
            return Err(ErrorCode::ReplyDataTooLarge);
        }
        sink::put_u16_le(buf, self.val);
        Ok(())
    }
}

/// Default is value zero with full access.
impl Default for Uint {
    fn default() -> (r: Self)
        ensures
            r.spec_val() == 0,
            r.spec_acc().spec_getable(),
            r.spec_acc().spec_settable(),
    {
        Uint { val: 0, acc: AccessCode::default() }
    }
}

/// Attribute that holds an unsigned 32 bit integer.
#[derive(Clone, Debug, PartialEq)]
pub struct Duint {
    /// The internal value
    val: u32,
    /// The allowed access methods
    acc: AccessCode,
}

impl Duint {
    /// The internal value.
    pub closed spec fn spec_val(self) -> u32 {
        self.val
    }

    /// The access mask attached at construction.
    pub closed spec fn spec_acc(self) -> AccessCode {
        self.acc
    }

    /// The wire form: the value's four little-endian bytes.
    pub open spec fn spec_enc(self) -> Seq<u8> {
        le32(self.spec_val())
    }

    /// Creates an attribute with an initial value and the accessibility via
    /// the wire interface; the internal get/set are not influenced.
    pub fn new(val: u32, acc: AccessCode) -> (r: Self)
        ensures
            r.spec_val() == val,
            r.spec_acc() == acc,
    {
        Duint { val, acc }
    }

    /// Retrieves the value from the attribute.
    #[inline]
    pub fn get(&self) -> (r: u32)
        ensures
            r == self.spec_val(),
    {
        self.val
    }

    /// Changes the value of the attribute.
    #[inline]
    pub fn set(&mut self, val: u32)
        ensures
            final(self).spec_val() == val,
            final(self).spec_acc() == old(self).spec_acc(),
    {
        self.val = val;
    }

    /// Get the serialized size in bytes.
    pub fn serial_size(&self) -> (r: usize)
        ensures
            r == 4,
    {
        4
    }

    /// Read the value from a message buffer, gated by the access mask.
    pub fn deserialize(&mut self, buf: &mut Reader) -> (r: EipResult)
        ensures
            match r {
                Ok(()) => {
                    &&& old(self).spec_acc().spec_settable()
                    &&& old(buf).rest().len() >= 4
                    &&& final(self).spec_val() == u32_le_val(
                        old(buf).rest()[0],
                        old(buf).rest()[1],
                        old(buf).rest()[2],
                        old(buf).rest()[3],
                    )
                    &&& final(self).spec_acc() == old(self).spec_acc()
                    &&& final(buf).rest() == old(buf).rest().skip(4)
                },
                Err(e) => {
                    &&& *final(self) == *old(self)
                    &&& *final(buf) == *old(buf)
                    &&& if !old(self).spec_acc().spec_settable() {
                        e == ErrorCode::AttributeNotSettable
                    } else {
                        e == ErrorCode::NotEnoughData && old(buf).rest().len() < 4
                    }
                },
            },
    {
        if !self.acc.settable() {
            return Err(ErrorCode::AttributeNotSettable);
        }
        if buf.remaining() < 4 {
            return Err(ErrorCode::NotEnoughData);
        }
        self.val = buf.get_u32_le();
        Ok(())
    }

    /// Write the value to a message buffer, gated by the access mask.
    pub fn serialize(&self, buf: &mut BytesMut) -> (r: EipResult)
        ensures
            match r {
                Ok(()) => {
                    &&& self.spec_acc().spec_getable()
                    &&& bytes_of(*old(buf)).len() + 4 <= isize::MAX
                    &&& bytes_of(*final(buf)) == bytes_of(*old(buf)) + self.spec_enc()
                },
                Err(e) => {
                    &&& bytes_of(*final(buf)) == bytes_of(*old(buf))
                    &&& if !self.spec_acc().spec_getable() {
                        e == ErrorCode::AttributeNotGettable
                    } else {
                        e == ErrorCode::ReplyDataTooLarge && bytes_of(*old(buf)).len() + 4
                            > isize::MAX
                    }
                },
            },
    {
        if !self.acc.getable() {
            return Err(ErrorCode::AttributeNotGettable);
        }
        if sink::remaining_mut(buf) < 4 {
            return Err(ErrorCode::ReplyDataTooLarge);
        }
        sink::put_u32_le(buf, self.val);
        Ok(())
    }
}

/// Default is value zero with full access.
impl Default for Duint {
    fn default() -> (r: Self)
        ensures
            r.spec_val() == 0,
            r.spec_acc().spec_getable(),
            r.spec_acc().spec_settable(),
    {
        Duint { val: 0, acc: AccessCode::default() }
    }
}

/// Attribute that holds a character string. Maximum length is 255 bytes.
#[derive(Debug, PartialEq)]
pub struct ShortString {
    buf: Vec<u8>,
    cap: usize,
    acc: AccessCode,
}

impl ShortString {
    /// The stored text, as its UTF-8 bytes.
    pub closed spec fn spec_bytes(self) -> Seq<u8> {
        self.buf@
    }

    /// The declared capacity in bytes.
    pub closed spec fn spec_cap(self) -> usize {
        self.cap
    }

    /// The access mask attached at construction.
    pub closed spec fn spec_acc(self) -> AccessCode {
        self.acc
    }

    /// The stored text never exceeds the declared capacity, which is at
    /// most 255 bytes.
    #[verifier::type_invariant]
    pub open spec fn wf(self) -> bool {
        self.spec_bytes().len() <= self.spec_cap() && self.spec_cap() <= 255
    }

    /// The wire form: a one-byte length prefix followed by that many raw
    /// text bytes, with no terminator.
    pub open spec fn spec_enc(self) -> Seq<u8> {
        seq![self.spec_bytes().len() as u8] + self.spec_bytes()
    }

    /// The bytes an assignment stores: the text's UTF-8 bytes, cut to the
    /// capacity when they are longer.
    pub open spec fn spec_clipped(text: Seq<char>, cap: usize) -> Seq<u8> {
        if encode_utf8(text).len() <= cap {
            encode_utf8(text)
        } else {
            encode_utf8(text).take(cap as int)
        }
    }

    /// Creates an attribute with a maximum capacity and an initial value,
    /// truncated to the capacity when longer; `acc` gates only the wire
    /// interface, the internal accessors are not influenced.
    pub fn with_capacity(buf: String, acc: AccessCode, capacity: u8) -> (r: Self)
        ensures
            r.spec_bytes() == ShortString::spec_clipped(buf@, capacity as usize),
            r.spec_cap() == capacity as usize,
            r.spec_acc() == acc,
    {
        let cap = capacity as usize;
        let mut bytes = slice_to_vec(buf.as_str().as_bytes());
        if bytes.len() > cap {
            bytes.truncate(cap);
        }
        ShortString { buf: bytes, cap, acc }
    }

    /// Set a string to the attribute, truncated to the capacity when longer.
    pub fn set(&mut self, buf: String)
        ensures
            final(self).spec_bytes() == ShortString::spec_clipped(buf@, old(self).spec_cap()),
            final(self).spec_cap() == old(self).spec_cap(),
            final(self).spec_acc() == old(self).spec_acc(),
    {
        proof {
            use_type_invariant(&*self);
        }
        let mut bytes = slice_to_vec(buf.as_str().as_bytes());
        if bytes.len() > self.cap {
            bytes.truncate(self.cap);
        }
        self.buf = bytes;
    }

    /// Get the serialized size in bytes: one for the length prefix plus the
    /// stored text.
    pub fn serial_size(&self) -> (r: usize)
        ensures
            r == 1 + self.spec_bytes().len(),
    {
        proof {
            use_type_invariant(self);
        }
        1 + self.buf.len()
    }

    /// Read the value from a message buffer, gated by the access mask.
    ///
    /// The length prefix is consumed before the remaining checks run, so a
    /// failure past that point leaves the cursor advanced; the stored value
    /// is only replaced when the whole operation succeeds.
    pub fn deserialize(&mut self, buf: &mut Reader) -> (r: EipResult)
        ensures
            match r {
                Ok(()) => {
                    &&& old(self).spec_acc().spec_settable()
                    &&& old(buf).rest().len() >= 1
                    &&& old(buf).rest().len() >= 1 + old(buf).rest()[0]
                    &&& old(buf).rest()[0] <= old(self).spec_cap()
                    &&& valid_utf8(old(buf).rest().subrange(1, 1 + old(buf).rest()[0] as int))
                    &&& final(self).spec_bytes() == old(buf).rest().subrange(
                        1,
                        1 + old(buf).rest()[0] as int,
                    )
                    &&& final(self).spec_cap() == old(self).spec_cap()
                    &&& final(self).spec_acc() == old(self).spec_acc()
                    &&& final(buf).rest() == old(buf).rest().skip(1 + old(buf).rest()[0] as int)
                },
                Err(e) => {
                    &&& *final(self) == *old(self)
                    &&& if !old(self).spec_acc().spec_settable() {
                        e == ErrorCode::AttributeNotSettable && *final(buf) == *old(buf)
                    } else if old(buf).rest().len() < 1 {
                        e == ErrorCode::NotEnoughData && *final(buf) == *old(buf)
                    } else if old(buf).rest().len() < 1 + old(buf).rest()[0] {
                        e == ErrorCode::NotEnoughData && final(buf).rest() == old(buf).rest().skip(
                            1,
                        )
                    } else if old(buf).rest()[0] > old(self).spec_cap() {
                        e == ErrorCode::TooMuchData && final(buf).rest() == old(buf).rest().skip(1)
                    } else {
                        &&& e == ErrorCode::InvalidParameter
                        &&& !valid_utf8(old(buf).rest().subrange(1, 1 + old(buf).rest()[0] as int))
                        &&& final(buf).rest() == old(buf).rest().skip(
                            1 + old(buf).rest()[0] as int,
                        )
                    }
                },
            },
    {
        proof {
            use_type_invariant(&*self);
        }
        if !self.acc.settable() {
            return Err(ErrorCode::AttributeNotSettable);
        }
        // check if the incoming buffer can have the size byte
        if buf.remaining() < 1 {
            return Err(ErrorCode::NotEnoughData);
        }
        let l = buf.get_u8() as usize;
        // check if the size is available in the incoming buffer
        if buf.remaining() < l {
            return Err(ErrorCode::NotEnoughData);
        }
        // check if the internal capacity is enough to hold the string
        if self.cap < l {
            return Err(ErrorCode::TooMuchData);
        }
        // check if the incoming bytes are valid text
        let data = buf.copy_bytes(l);
        proof {
            assert(data@ =~= old(buf).rest().subrange(1, 1 + old(buf).rest()[0] as int));
            assert(buf.rest() =~= old(buf).rest().skip(1 + old(buf).rest()[0] as int));
        }
        if !utf8_check(data.as_slice()) {
            return Err(ErrorCode::InvalidParameter);
        }
        self.buf = data;
        Ok(())
    }

    /// Write the value to a message buffer, gated by the access mask.
    pub fn serialize(&self, buf: &mut BytesMut) -> (r: EipResult)
        ensures
            match r {
                Ok(()) => {
                    &&& self.spec_acc().spec_getable()
                    &&& bytes_of(*old(buf)).len() + 1 + self.spec_bytes().len() <= isize::MAX
                    &&& bytes_of(*final(buf)) == bytes_of(*old(buf)) + self.spec_enc()
                },
                Err(e) => {
                    &&& bytes_of(*final(buf)) == bytes_of(*old(buf))
                    &&& if !self.spec_acc().spec_getable() {
                        e == ErrorCode::AttributeNotGettable
                    } else {
                        e == ErrorCode::ReplyDataTooLarge && bytes_of(*old(buf)).len() + 1
                            + self.spec_bytes().len() > isize::MAX
                    }
                },
            },
    {
        proof {
            use_type_invariant(self);
        }
        if !self.acc.getable() {
            return Err(ErrorCode::AttributeNotGettable);
        }
        if sink::remaining_mut(buf) < 1 + self.buf.len() {
            return Err(ErrorCode::ReplyDataTooLarge);
        }
        sink::put_u8(buf, self.buf.len() as u8);
        sink::put_slice(buf, self.buf.as_slice());
        proof {
            assert(bytes_of(*buf) =~= bytes_of(*old(buf)) + self.spec_enc());
        }
        Ok(())
    }
}

impl Clone for ShortString {
    /// A copy with the same text, capacity and access mask.
    fn clone(&self) -> (r: Self)
        ensures
            r.spec_bytes() == self.spec_bytes(),
            r.spec_cap() == self.spec_cap(),
            r.spec_acc() == self.spec_acc(),
    {
        proof {
            use_type_invariant(self);
        }
        ShortString { buf: slice_to_vec(self.buf.as_slice()), cap: self.cap, acc: self.acc }
    }
}

/// Default is an empty value with the maximum capacity and full access.
impl Default for ShortString {
    fn default() -> (r: Self)
        ensures
            r.spec_bytes() == Seq::<u8>::empty(),
            r.spec_cap() == 255usize,
            r.spec_acc().spec_getable(),
            r.spec_acc().spec_settable(),
    {
        ShortString { buf: Vec::new(), cap: 255, acc: AccessCode::default() }
    }
}

/// Wire round trip for signed 8-bit attributes: reading the encoded byte
/// back restores the attribute's value.
pub proof fn lemma_sint_round_trip(a: Sint)
    ensures
        i8_of_u8(a.spec_enc()[0]) == a.spec_val(),
{
    lemma_i8_round_trip(a.spec_val());
}

/// Wire round trip for signed 16-bit attributes: reading the encoded bytes
/// back restores the attribute's value.
pub proof fn lemma_int_round_trip(a: Int)
    ensures
        i16_of_u16(u16_le_val(a.spec_enc()[0], a.spec_enc()[1])) == a.spec_val(),
{
    lemma_u16_le_round_trip(u16_of_i16(a.spec_val()));
    lemma_i16_round_trip(a.spec_val());
}

/// Wire round trip for signed 32-bit attributes: reading the encoded bytes
/// back restores the attribute's value.
pub proof fn lemma_dint_round_trip(a: DInt)
    ensures
        i32_of_u32(
            u32_le_val(a.spec_enc()[0], a.spec_enc()[1], a.spec_enc()[2], a.spec_enc()[3]),
        ) == a.spec_val(),
{
    lemma_u32_le_round_trip(u32_of_i32(a.spec_val()));
    lemma_i32_round_trip(a.spec_val());
}

/// Wire round trip for unsigned 8-bit attributes: reading the encoded byte
/// back restores the attribute's value.
pub proof fn lemma_usint_round_trip(a: Usint)
    ensures
        a.spec_enc()[0] == a.spec_val(),
{
}

/// Wire round trip for unsigned 16-bit attributes: reading the encoded
/// bytes back restores the attribute's value.
pub proof fn lemma_uint_round_trip(a: Uint)
    ensures
        u16_le_val(a.spec_enc()[0], a.spec_enc()[1]) == a.spec_val(),
{
    lemma_u16_le_round_trip(a.spec_val());
}

/// Wire round trip for unsigned 32-bit attributes: reading the encoded
/// bytes back restores the attribute's value.
pub proof fn lemma_duint_round_trip(a: Duint)
    ensures
        u32_le_val(a.spec_enc()[0], a.spec_enc()[1], a.spec_enc()[2], a.spec_enc()[3])
            == a.spec_val(),
{
    lemma_u32_le_round_trip(a.spec_val());
}

} // verus!
