//! The Identity object: identification of and general information about
//! the device, assembled from the core attribute types.

use vstd::prelude::*;

use crate::attr::{AccessCode, Duint, ShortString, Uint, Usint};
use crate::eip::EipResult;
use crate::encapsulation::VERSION;
use crate::error_code::ErrorCode;
use crate::item::{Id, Item};
use crate::reader::Reader;
use crate::sink;
use crate::sink::bytes_of;
use crate::socket_address::SocketAddress;
use crate::wire::{le16, u16_le_val, u32_le_val};
use bytes::BytesMut;
use vstd::utf8::valid_utf8;

verus! {

/// An identity attribute identifier.
#[derive(Clone, Copy, Debug, PartialEq, Eq, Structural)]
pub struct Attr(pub u16);

impl Default for Attr {
    fn default() -> (r: Self)
        ensures
            r.0 == 0,
    {
        Attr(0)
    }
}

/// This object provides identification of and general information about
/// the device.
#[derive(Clone, Debug, PartialEq)]
pub struct Identity {
    /// Identification of each vendor by number
    pub vendor_id: Uint,
    /// Indication of general type of product
    pub device_type: Uint,
    /// Identification of a particular product of an individual vendor
    pub product_code: Uint,
    /// Revision of the item the Identity object represents
    pub revision: Uint,
    /// Summary status of device
    pub status: Uint,
    /// Serial number of device
    pub serial_number: Duint,
    /// Human readable product description
    pub product_name: ShortString,
    /// Present state of the device
    pub state: Usint,
    /// Contents identify configuration of device
    pub configuration_consistency_value: Uint,
    /// The nominal interval between heartbeat messages in seconds
    pub heartbeat_interval: Usint,
    /// The address advertised with the identity
    pub socket_address: SocketAddress,
}

impl Identity {
    pub const VENDOR_ID: u16 = 1;

    pub const DEVICE_TYPE: u16 = 2;

    pub const PRODUCT_CODE: u16 = 3;

    pub const REVISION: u16 = 4;

    pub const STATUS: u16 = 5;

    pub const SERIAL_NUMBER: u16 = 6;

    pub const PRODUCT_NAME: u16 = 7;

    pub const STATE: u16 = 8;

    pub const CONFIGURATION_CONSISTENCY_VALUE: u16 = 9;

    pub const HEARTBEAT_INTERVAL: u16 = 10;

    pub const ATTRIBUTE_END: u16 = 11;

    /// The wire form of one attribute; empty outside the supported range.
    pub open spec fn spec_attr_enc(self, n: u16) -> Seq<u8> {
        if n == 1 {
            self.vendor_id.spec_enc()
        } else if n == 2 {
            self.device_type.spec_enc()
        } else if n == 3 {
            self.product_code.spec_enc()
        } else if n == 4 {
            self.revision.spec_enc()
        } else if n == 5 {
            self.status.spec_enc()
        } else if n == 6 {
            self.serial_number.spec_enc()
        } else if n == 7 {
            self.product_name.spec_enc()
        } else if n == 8 {
            self.state.spec_enc()
        } else if n == 9 {
            self.configuration_consistency_value.spec_enc()
        } else if n == 10 {
            self.heartbeat_interval.spec_enc()
        } else {
            Seq::<u8>::empty()
        }
    }

    /// Whether one attribute may be read over the wire.
    pub open spec fn spec_attr_getable(self, n: u16) -> bool {
        if n == 1 {
            self.vendor_id.spec_acc().spec_getable()
        } else if n == 2 {
            self.device_type.spec_acc().spec_getable()
        } else if n == 3 {
            self.product_code.spec_acc().spec_getable()
        } else if n == 4 {
            self.revision.spec_acc().spec_getable()
        } else if n == 5 {
            self.status.spec_acc().spec_getable()
        } else if n == 6 {
            self.serial_number.spec_acc().spec_getable()
        } else if n == 7 {
            self.product_name.spec_acc().spec_getable()
        } else if n == 8 {
            self.state.spec_acc().spec_getable()
        } else if n == 9 {
            self.configuration_consistency_value.spec_acc().spec_getable()
        } else if n == 10 {
            self.heartbeat_interval.spec_acc().spec_getable()
        } else {
            false
        }
    }

    /// Whether one attribute may be written over the wire.
    pub open spec fn spec_attr_settable(self, n: u16) -> bool {
        if n == 1 {
            self.vendor_id.spec_acc().spec_settable()
        } else if n == 2 {
            self.device_type.spec_acc().spec_settable()
        } else if n == 3 {
            self.product_code.spec_acc().spec_settable()
        } else if n == 4 {
            self.revision.spec_acc().spec_settable()
        } else if n == 5 {
            self.status.spec_acc().spec_settable()
        } else if n == 6 {
            self.serial_number.spec_acc().spec_settable()
        } else if n == 7 {
            self.product_name.spec_acc().spec_settable()
        } else if n == 8 {
            self.state.spec_acc().spec_settable()
        } else if n == 9 {
            self.configuration_consistency_value.spec_acc().spec_settable()
        } else if n == 10 {
            self.heartbeat_interval.spec_acc().spec_settable()
        } else {
            false
        }
    }

    /// Whether every attribute below `end` may be read over the wire.
    pub open spec fn spec_all_getable_upto(self, end: u16) -> bool {
        &&& (end > 1 ==> self.spec_attr_getable(1))
        &&& (end > 2 ==> self.spec_attr_getable(2))
        &&& (end > 3 ==> self.spec_attr_getable(3))
        &&& (end > 4 ==> self.spec_attr_getable(4))
        &&& (end > 5 ==> self.spec_attr_getable(5))
        &&& (end > 6 ==> self.spec_attr_getable(6))
        &&& (end > 7 ==> self.spec_attr_getable(7))
        &&& (end > 8 ==> self.spec_attr_getable(8))
        &&& (end > 9 ==> self.spec_attr_getable(9))
        &&& (end > 10 ==> self.spec_attr_getable(10))
    }

    /// Whether every attribute may be written over the wire.
    pub open spec fn spec_all_settable(self) -> bool {
        &&& self.spec_attr_settable(1)
        &&& self.spec_attr_settable(2)
        &&& self.spec_attr_settable(3)
        &&& self.spec_attr_settable(4)
        &&& self.spec_attr_settable(5)
        &&& self.spec_attr_settable(6)
        &&& self.spec_attr_settable(7)
        &&& self.spec_attr_settable(8)
        &&& self.spec_attr_settable(9)
        &&& self.spec_attr_settable(10)
    }

    /// The wire form of the attributes below `end`, in order.
    pub open spec fn spec_enc_upto(self, end: u16) -> Seq<u8> {
        (if end > 1 {
            self.spec_attr_enc(1)
        } else {
            Seq::<u8>::empty()
        }) + (if end > 2 {
            self.spec_attr_enc(2)
        } else {
            Seq::<u8>::empty()
        }) + (if end > 3 {
            self.spec_attr_enc(3)
        } else {
            Seq::<u8>::empty()
        }) + (if end > 4 {
            self.spec_attr_enc(4)
        } else {
            Seq::<u8>::empty()
        }) + (if end > 5 {
            self.spec_attr_enc(5)
        } else {
            Seq::<u8>::empty()
        }) + (if end > 6 {
            self.spec_attr_enc(6)
        } else {
            Seq::<u8>::empty()
        }) + (if end > 7 {
            self.spec_attr_enc(7)
        } else {
            Seq::<u8>::empty()
        }) + (if end > 8 {
            self.spec_attr_enc(8)
        } else {
            Seq::<u8>::empty()
        }) + (if end > 9 {
            self.spec_attr_enc(9)
        } else {
            Seq::<u8>::empty()
        }) + (if end > 10 {
            self.spec_attr_enc(10)
        } else {
            Seq::<u8>::empty()
        })
    }

    /// Create an instance whose identification attributes are readable but
    /// not writable over the wire, with a product name capacity of 32
    /// bytes. Typically used for the server side; `Default` is typically
    /// for the client side.
    pub fn new(
        vendor_id: u16,
        device_type: u16,
        product_code: u16,
        revision: u16,
        serial_number: u32,
        product_name: String,
    ) -> (r: Self)
        ensures
            r.vendor_id.spec_val() == vendor_id,
            r.device_type.spec_val() == device_type,
            r.product_code.spec_val() == product_code,
            r.revision.spec_val() == revision,
            r.status.spec_val() == 0,
            r.serial_number.spec_val() == serial_number,
            r.product_name.spec_bytes() == ShortString::spec_clipped(product_name@, 32),
            r.product_name.spec_cap() == 32,
            r.state.spec_val() == 0,
            r.configuration_consistency_value.spec_val() == 0,
            r.heartbeat_interval.spec_val() == 0,
            r.socket_address.family.0 == 0,
            r.socket_address.port == 0,
            r.socket_address.addr == 0,
            r.spec_all_getable_upto(11),
            !r.spec_attr_settable(1) && !r.spec_attr_settable(2) && !r.spec_attr_settable(3)
                && !r.spec_attr_settable(4) && !r.spec_attr_settable(6) && !r.spec_attr_settable(7),
            r.spec_attr_settable(5) && r.spec_attr_settable(8) && r.spec_attr_settable(9)
                && r.spec_attr_settable(10),
    {
        proof {
            crate::attr::lemma_access_code_table();
        }
        let gettable = AccessCode::new(AccessCode::GET);
        Identity {
            vendor_id: Uint::new(vendor_id, gettable),
            device_type: Uint::new(device_type, gettable),
            product_code: Uint::new(product_code, gettable),
            revision: Uint::new(revision, gettable),
            status: Uint::default(),
            serial_number: Duint::new(serial_number, gettable),
            product_name: ShortString::with_capacity(product_name, gettable, 32),
            state: Usint::default(),
            configuration_consistency_value: Uint::default(),
            heartbeat_interval: Usint::default(),
            socket_address: SocketAddress::default(),
        }
    }

    /// Serialize one specific attribute, selected by its identifier.
    pub fn serialize_attribute_single(&self, buf: &mut BytesMut, attr: Attr) -> (r: EipResult)
        ensures
            match r {
                Ok(()) => {
                    &&& 1 <= attr.0 <= 10
                    &&& self.spec_attr_getable(attr.0)
                    &&& bytes_of(*old(buf)).len() + self.spec_attr_enc(attr.0).len() <= isize::MAX
                    &&& bytes_of(*final(buf)) == bytes_of(*old(buf)) + self.spec_attr_enc(attr.0)
                },
                Err(e) => {
                    &&& bytes_of(*final(buf)) == bytes_of(*old(buf))
                    &&& if !(1 <= attr.0 <= 10) {
                        e == ErrorCode::AttributeNotSupported
                    } else if !self.spec_attr_getable(attr.0) {
                        e == ErrorCode::AttributeNotGettable
                    } else {
                        e == ErrorCode::ReplyDataTooLarge && bytes_of(*old(buf)).len()
                            + self.spec_attr_enc(attr.0).len() > isize::MAX
                    }
                },
            },
    {
        if attr.0 == Self::VENDOR_ID {
            self.vendor_id.serialize(buf)?;
        } else if attr.0 == Self::DEVICE_TYPE {
            self.device_type.serialize(buf)?;
        } else if attr.0 == Self::PRODUCT_CODE {
            self.product_code.serialize(buf)?;
        } else if attr.0 == Self::REVISION {
            self.revision.serialize(buf)?;
        } else if attr.0 == Self::STATUS {
            self.status.serialize(buf)?;
        } else if attr.0 == Self::SERIAL_NUMBER {
            self.serial_number.serialize(buf)?;
        } else if attr.0 == Self::PRODUCT_NAME {
            self.product_name.serialize(buf)?;
        } else if attr.0 == Self::STATE {
            self.state.serialize(buf)?;
        } else if attr.0 == Self::CONFIGURATION_CONSISTENCY_VALUE {
            self.configuration_consistency_value.serialize(buf)?;
        } else if attr.0 == Self::HEARTBEAT_INTERVAL {
            self.heartbeat_interval.serialize(buf)?;
        } else {
            return Err(ErrorCode::AttributeNotSupported);
        }
        Ok(())
    }

    /// Deserialize one specific attribute, selected by its identifier.
    pub fn deserialize_attribute_single(&mut self, buf: &mut Reader, attr: Attr) -> (r: EipResult)
        ensures
            match r {
                Ok(()) => ({
                    let b = old(buf).rest();
                    &&& 1 <= attr.0 <= 10
                    &&& old(self).spec_attr_settable(attr.0)
                    &&& (attr.0 != 1 ==> final(self).vendor_id == old(self).vendor_id)
                    &&& (attr.0 != 2 ==> final(self).device_type == old(self).device_type)
                    &&& (attr.0 != 3 ==> final(self).product_code == old(self).product_code)
                    &&& (attr.0 != 4 ==> final(self).revision == old(self).revision)
                    &&& (attr.0 != 5 ==> final(self).status == old(self).status)
                    &&& (attr.0 != 6 ==> final(self).serial_number == old(self).serial_number)
                    &&& (attr.0 != 7 ==> final(self).product_name == old(self).product_name)
                    &&& (attr.0 != 8 ==> final(self).state == old(self).state)
                    &&& (attr.0 != 9 ==> final(self).configuration_consistency_value == old(
                        self,
                    ).configuration_consistency_value)
                    &&& (attr.0 != 10 ==> final(self).heartbeat_interval == old(
                        self,
                    ).heartbeat_interval)
                    &&& final(self).socket_address == old(self).socket_address
                    &&& (attr.0 == 1 ==> b.len() >= 2 && final(self).vendor_id.spec_val()
                        == u16_le_val(b[0], b[1]) && final(self).vendor_id.spec_acc() == old(
                        self,
                    ).vendor_id.spec_acc() && final(buf).rest() == b.skip(2))
                    &&& (attr.0 == 2 ==> b.len() >= 2 && final(self).device_type.spec_val()
                        == u16_le_val(b[0], b[1]) && final(self).device_type.spec_acc() == old(
                        self,
                    ).device_type.spec_acc() && final(buf).rest() == b.skip(2))
                    &&& (attr.0 == 3 ==> b.len() >= 2 && final(self).product_code.spec_val()
                        == u16_le_val(b[0], b[1]) && final(self).product_code.spec_acc() == old(
                        self,
                    ).product_code.spec_acc() && final(buf).rest() == b.skip(2))
                    &&& (attr.0 == 4 ==> b.len() >= 2 && final(self).revision.spec_val()
                        == u16_le_val(b[0], b[1]) && final(self).revision.spec_acc() == old(
                        self,
                    ).revision.spec_acc() && final(buf).rest() == b.skip(2))
                    &&& (attr.0 == 5 ==> b.len() >= 2 && final(self).status.spec_val()
                        == u16_le_val(b[0], b[1]) && final(self).status.spec_acc() == old(
                        self,
                    ).status.spec_acc() && final(buf).rest() == b.skip(2))
                    &&& (attr.0 == 6 ==> b.len() >= 4 && final(self).serial_number.spec_val()
                        == u32_le_val(b[0], b[1], b[2], b[3]) && final(self).serial_number.spec_acc() == old(self).serial_number.spec_acc() && final(buf).rest() == b.skip(4))
                    &&& (attr.0 == 7 ==> b.len() >= 1 && b.len() >= 1 + b[0] && b[0] <= old(
                        self,
                    ).product_name.spec_cap() && valid_utf8(b.subrange(1, 1 + b[0] as int))
                        && final(self).product_name.spec_bytes() == b.subrange(1, 1 + b[0] as int)
                        && final(self).product_name.spec_cap() == old(self).product_name.spec_cap()
                        && final(self).product_name.spec_acc() == old(self).product_name.spec_acc()
                        && final(buf).rest() == b.skip(1 + b[0] as int))
                    &&& (attr.0 == 8 ==> b.len() >= 1 && final(self).state.spec_val() == b[0]
                        && final(self).state.spec_acc() == old(self).state.spec_acc() && final(buf).rest() == b.skip(1))
                    &&& (attr.0 == 9 ==> b.len() >= 2 && final(self).configuration_consistency_value.spec_val() == u16_le_val(b[0], b[1]) && final(self).configuration_consistency_value.spec_acc() == old(
                        self,
                    ).configuration_consistency_value.spec_acc() && final(buf).rest() == b.skip(2))
                    &&& (attr.0 == 10 ==> b.len() >= 1 && final(self).heartbeat_interval.spec_val()
                        == b[0] && final(self).heartbeat_interval.spec_acc() == old(
                        self,
                    ).heartbeat_interval.spec_acc() && final(buf).rest() == b.skip(1))
                }),
                Err(e) => ({
                    let b = old(buf).rest();
                    &&& *final(self) == *old(self)
                    &&& if !(1 <= attr.0 <= 10) {
                        e == ErrorCode::AttributeNotSupported && *final(buf) == *old(buf)
                    } else if !old(self).spec_attr_settable(attr.0) {
                        e == ErrorCode::AttributeNotSettable && *final(buf) == *old(buf)
                    } else if attr.0 != 7 {
                        e == ErrorCode::NotEnoughData && b.len() < (if attr.0 == 6 {
                            4int
                        } else if attr.0 == 8 || attr.0 == 10 {
                            1int
                        } else {
                            2int
                        }) && *final(buf) == *old(buf)
                    } else {
                        if b.len() < 1 {
                            e == ErrorCode::NotEnoughData && *final(buf) == *old(buf)
                        } else if b.len() < 1 + b[0] {
                            e == ErrorCode::NotEnoughData && final(buf).rest() == b.skip(1)
                        } else if b[0] > old(self).product_name.spec_cap() {
                            e == ErrorCode::TooMuchData && final(buf).rest() == b.skip(1)
                        } else {
                            e == ErrorCode::InvalidParameter && !valid_utf8(
                                b.subrange(1, 1 + b[0] as int),
                            ) && final(buf).rest() == b.skip(1 + b[0] as int)
                        }
                    }
                }),
            },
    {
        if attr.0 == Self::VENDOR_ID {
            self.vendor_id.deserialize(buf)?;
        } else if attr.0 == Self::DEVICE_TYPE {
            self.device_type.deserialize(buf)?;
        } else if attr.0 == Self::PRODUCT_CODE {
            self.product_code.deserialize(buf)?;
        } else if attr.0 == Self::REVISION {
            self.revision.deserialize(buf)?;
        } else if attr.0 == Self::STATUS {
            self.status.deserialize(buf)?;
        } else if attr.0 == Self::SERIAL_NUMBER {
            self.serial_number.deserialize(buf)?;
        } else if attr.0 == Self::PRODUCT_NAME {
            self.product_name.deserialize(buf)?;
        } else if attr.0 == Self::STATE {
            self.state.deserialize(buf)?;
        } else if attr.0 == Self::CONFIGURATION_CONSISTENCY_VALUE {
            self.configuration_consistency_value.deserialize(buf)?;
        } else if attr.0 == Self::HEARTBEAT_INTERVAL {
            self.heartbeat_interval.deserialize(buf)?;
        } else {
            return Err(ErrorCode::AttributeNotSupported);
        }
        Ok(())
    }

    /// List the mandatory attributes as an identity item: the backfilled
    /// item header, the encapsulation version, the socket address, and the
    /// attributes through the device state.
    ///
    /// The sink must have room for the largest identity item, which stays
    /// under four hundred bytes, under the allocation cap; within that
    /// bound only an unreadable attribute can make the listing fail.
    pub fn list(&self, buf: &mut BytesMut) -> (r: EipResult)
        requires
            bytes_of(*old(buf)).len() + 400 <= isize::MAX,
        ensures
            match r {
                Ok(()) => {
                    &&& self.spec_all_getable_upto(9)
                    &&& bytes_of(*final(buf)) == bytes_of(*old(buf)) + le16(Item::IDENTITY) + le16(
                        (18 + self.spec_enc_upto(9).len()) as u16,
                    ) + le16(VERSION) + self.socket_address.spec_enc() + self.spec_enc_upto(9)
                },
                Err(e) => {
                    &&& e == ErrorCode::AttributeNotGettable
                    &&& !self.spec_all_getable_upto(9)
                },
            },
    {
        proof {
            use_type_invariant(&self.product_name);
        }
        let mut item = Item::new(Id(Item::IDENTITY), 0);
        let mut rest = match item.split_off(buf) {
            Ok(rest) => rest,
            Err(e) => {
                return Err(e);
            },
        };

        sink::put_u16_le(&mut rest, VERSION);

        self.socket_address.serialize(&mut rest)?;

        self.serialize_attribute_single(&mut rest, Attr(1))?;
        self.serialize_attribute_single(&mut rest, Attr(2))?;
        self.serialize_attribute_single(&mut rest, Attr(3))?;
        self.serialize_attribute_single(&mut rest, Attr(4))?;
        self.serialize_attribute_single(&mut rest, Attr(5))?;
        self.serialize_attribute_single(&mut rest, Attr(6))?;
        self.serialize_attribute_single(&mut rest, Attr(7))?;
        self.serialize_attribute_single(&mut rest, Attr(8))?;

        item.len = sink::sink_len(&rest);
        item.serialize(buf)?;
        sink::unsplit(buf, rest);
        proof {
            assert(bytes_of(*buf) =~= bytes_of(*old(buf)) + le16(Item::IDENTITY) + le16(
                (18 + self.spec_enc_upto(9).len()) as u16,
            ) + le16(VERSION) + self.socket_address.spec_enc() + self.spec_enc_upto(9));
        }
        Ok(())
    }

    /// Deserialize all attributes in order. On failure the fields decoded
    /// before the failing one are already replaced; the caller must
    /// discard the object.
    pub fn deserialize(&mut self, buf: &mut Reader) -> (r: EipResult)
        ensures
            match r {
                Ok(()) => ({
                    let b = old(buf).rest();
                    let l = b[14] as int;
                    &&& old(self).spec_all_settable()
                    &&& b.len() >= 19 + l
                    &&& final(self).vendor_id.spec_val() == u16_le_val(b[0], b[1])
                    &&& final(self).device_type.spec_val() == u16_le_val(b[2], b[3])
                    &&& final(self).product_code.spec_val() == u16_le_val(b[4], b[5])
                    &&& final(self).revision.spec_val() == u16_le_val(b[6], b[7])
                    &&& final(self).status.spec_val() == u16_le_val(b[8], b[9])
                    &&& final(self).serial_number.spec_val() == u32_le_val(b[10], b[11], b[12], b[13])
                    &&& l <= old(self).product_name.spec_cap()
                    &&& valid_utf8(b.subrange(15, 15 + l))
                    &&& final(self).product_name.spec_bytes() == b.subrange(15, 15 + l)
                    &&& final(self).product_name.spec_cap() == old(self).product_name.spec_cap()
                    &&& final(self).state.spec_val() == b[15 + l]
                    &&& final(self).configuration_consistency_value.spec_val() == u16_le_val(
                        b[16 + l],
                        b[17 + l],
                    )
                    &&& final(self).heartbeat_interval.spec_val() == b[18 + l]
                    &&& final(self).socket_address == old(self).socket_address
                    &&& final(buf).rest() == b.skip(19 + l)
                }),
                Err(e) => ({
                    let b = old(buf).rest();
                    let l = if b.len() >= 15 {
                        b[14] as int
                    } else {
                        0
                    };
                    if !old(self).spec_attr_settable(1) {
                        e == ErrorCode::AttributeNotSettable
                    } else if b.len() < 2 {
                        e == ErrorCode::NotEnoughData
                    } else if !old(self).spec_attr_settable(2) {
                        e == ErrorCode::AttributeNotSettable
                    } else if b.len() < 4 {
                        e == ErrorCode::NotEnoughData
                    } else if !old(self).spec_attr_settable(3) {
                        e == ErrorCode::AttributeNotSettable
                    } else if b.len() < 6 {
                        e == ErrorCode::NotEnoughData
                    } else if !old(self).spec_attr_settable(4) {
                        e == ErrorCode::AttributeNotSettable
                    } else if b.len() < 8 {
                        e == ErrorCode::NotEnoughData
                    } else if !old(self).spec_attr_settable(5) {
                        e == ErrorCode::AttributeNotSettable
                    } else if b.len() < 10 {
                        e == ErrorCode::NotEnoughData
                    } else if !old(self).spec_attr_settable(6) {
                        e == ErrorCode::AttributeNotSettable
                    } else if b.len() < 14 {
                        e == ErrorCode::NotEnoughData
                    } else if !old(self).spec_attr_settable(7) {
                        e == ErrorCode::AttributeNotSettable
                    } else if b.len() < 15 {
                        e == ErrorCode::NotEnoughData
                    } else if b.len() < 15 + l {
                        e == ErrorCode::NotEnoughData
                    } else if l > old(self).product_name.spec_cap() {
                        e == ErrorCode::TooMuchData
                    } else if !valid_utf8(b.subrange(15, 15 + l)) {
                        e == ErrorCode::InvalidParameter
                    } else if !old(self).spec_attr_settable(8) {
                        e == ErrorCode::AttributeNotSettable
                    } else if b.len() < 16 + l {
                        e == ErrorCode::NotEnoughData
                    } else if !old(self).spec_attr_settable(9) {
                        e == ErrorCode::AttributeNotSettable
                    } else if b.len() < 18 + l {
                        e == ErrorCode::NotEnoughData
                    } else if !old(self).spec_attr_settable(10) {
                        e == ErrorCode::AttributeNotSettable
                    } else {
                        e == ErrorCode::NotEnoughData && b.len() < 19 + l
                    }
                }),
            },
    {
        self.deserialize_attribute_single(buf, Attr(1))?;
        self.deserialize_attribute_single(buf, Attr(2))?;
        self.deserialize_attribute_single(buf, Attr(3))?;
        self.deserialize_attribute_single(buf, Attr(4))?;
        self.deserialize_attribute_single(buf, Attr(5))?;
        self.deserialize_attribute_single(buf, Attr(6))?;
        proof {
            assert(buf.rest() =~= old(buf).rest().skip(14));
            let b = old(buf).rest();
            if b.len() >= 15 {
                assert(b.skip(14)[0] == b[14]);
                if b.len() >= 15 + b[14] {
                    assert(b.skip(14).subrange(1, 1 + b[14] as int) =~= b.subrange(
                        15,
                        15 + b[14] as int,
                    ));
                }
            }
        }
        self.deserialize_attribute_single(buf, Attr(7))?;
        proof {
            assert(buf.rest() =~= old(buf).rest().skip(15 + old(buf).rest()[14] as int));
            assert(self.product_name.spec_bytes() =~= old(buf).rest().subrange(
                15,
                15 + old(buf).rest()[14] as int,
            ));
        }
        self.deserialize_attribute_single(buf, Attr(8))?;
        self.deserialize_attribute_single(buf, Attr(9))?;
        self.deserialize_attribute_single(buf, Attr(10))?;
        proof {
            assert(buf.rest() =~= old(buf).rest().skip(19 + old(buf).rest()[14] as int));
        }
        Ok(())
    }

    /// Serialize all attributes in order. On failure the sink may hold the
    /// attributes encoded before the failing one; the caller must discard
    /// it.
    pub fn serialize(&self, buf: &mut BytesMut) -> (r: EipResult)
        ensures
            match r {
                Ok(()) => {
                    &&& self.spec_all_getable_upto(11)
                    &&& bytes_of(*old(buf)).len() + self.spec_enc_upto(11).len() <= isize::MAX
                    &&& bytes_of(*final(buf)) == bytes_of(*old(buf)) + self.spec_enc_upto(11)
                },
                Err(e) => ({
                    let len = bytes_of(*old(buf)).len() as int;
                    let nl = self.product_name.spec_bytes().len() as int;
                    if !self.spec_attr_getable(1) {
                        e == ErrorCode::AttributeNotGettable
                    } else if len + 2 > isize::MAX {
                        e == ErrorCode::ReplyDataTooLarge
                    } else if !self.spec_attr_getable(2) {
                        e == ErrorCode::AttributeNotGettable
                    } else if len + 4 > isize::MAX {
                        e == ErrorCode::ReplyDataTooLarge
                    } else if !self.spec_attr_getable(3) {
                        e == ErrorCode::AttributeNotGettable
                    } else if len + 6 > isize::MAX {
                        e == ErrorCode::ReplyDataTooLarge
                    } else if !self.spec_attr_getable(4) {
                        e == ErrorCode::AttributeNotGettable
                    } else if len + 8 > isize::MAX {
                        e == ErrorCode::ReplyDataTooLarge
                    } else if !self.spec_attr_getable(5) {
                        e == ErrorCode::AttributeNotGettable
                    } else if len + 10 > isize::MAX {
                        e == ErrorCode::ReplyDataTooLarge
                    } else if !self.spec_attr_getable(6) {
                        e == ErrorCode::AttributeNotGettable
                    } else if len + 14 > isize::MAX {
                        e == ErrorCode::ReplyDataTooLarge
                    } else if !self.spec_attr_getable(7) {
                        e == ErrorCode::AttributeNotGettable
                    } else if len + 15 + nl > isize::MAX {
                        e == ErrorCode::ReplyDataTooLarge
                    } else if !self.spec_attr_getable(8) {
                        e == ErrorCode::AttributeNotGettable
                    } else if len + 16 + nl > isize::MAX {
                        e == ErrorCode::ReplyDataTooLarge
                    } else if !self.spec_attr_getable(9) {
                        e == ErrorCode::AttributeNotGettable
                    } else if len + 18 + nl > isize::MAX {
                        e == ErrorCode::ReplyDataTooLarge
                    } else if !self.spec_attr_getable(10) {
                        e == ErrorCode::AttributeNotGettable
                    } else {
                        e == ErrorCode::ReplyDataTooLarge && len + 19 + nl > isize::MAX
                    }
                }),
            },
    {
        self.serialize_attribute_single(buf, Attr(1))?;
        self.serialize_attribute_single(buf, Attr(2))?;
        self.serialize_attribute_single(buf, Attr(3))?;
        self.serialize_attribute_single(buf, Attr(4))?;
        self.serialize_attribute_single(buf, Attr(5))?;
        self.serialize_attribute_single(buf, Attr(6))?;
        self.serialize_attribute_single(buf, Attr(7))?;
        self.serialize_attribute_single(buf, Attr(8))?;
        self.serialize_attribute_single(buf, Attr(9))?;
        self.serialize_attribute_single(buf, Attr(10))?;
        proof {
            assert(bytes_of(*buf) =~= bytes_of(*old(buf)) + self.spec_enc_upto(11));
        }
        Ok(())
    }
}

/// Default is every attribute zero with full access and an empty product
/// name at the maximum capacity.
impl Default for Identity {
    fn default() -> (r: Self)
        ensures
            r.vendor_id.spec_val() == 0,
            r.device_type.spec_val() == 0,
            r.product_code.spec_val() == 0,
            r.revision.spec_val() == 0,
            r.status.spec_val() == 0,
            r.serial_number.spec_val() == 0,
            r.product_name.spec_bytes() == Seq::<u8>::empty(),
            r.product_name.spec_cap() == 255usize,
            r.state.spec_val() == 0,
            r.configuration_consistency_value.spec_val() == 0,
            r.heartbeat_interval.spec_val() == 0,
            r.spec_all_getable_upto(11),
            r.spec_all_settable(),
    {
        Identity {
            vendor_id: Uint::default(),
            device_type: Uint::default(),
            product_code: Uint::default(),
            revision: Uint::default(),
            status: Uint::default(),
            serial_number: Duint::default(),
            product_name: ShortString::default(),
            state: Usint::default(),
            configuration_consistency_value: Uint::default(),
            heartbeat_interval: Usint::default(),
            socket_address: SocketAddress::default(),
        }
    }
}

} // verus!
