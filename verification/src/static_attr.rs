//! A set of static attributes that is commonly applicable to CIP classes:
//! revision, maximum instance, and the number of instances.

use vstd::prelude::*;

use crate::attr::{AccessCode, Uint};
use crate::eip::EipResult;
use crate::error_code::ErrorCode;
use crate::reader::Reader;
use crate::sink::bytes_of;
use crate::wire::u16_le_val;
use bytes::BytesMut;

verus! {

/// A class attribute identifier.
#[derive(Clone, Copy, Debug, PartialEq, Eq, Structural)]
pub struct Attr(pub u16);

impl Default for Attr {
    fn default() -> (r: Self)
        ensures
            r.0 == 0,
    {
        Attr(0)
    }
}

/// The common static class attributes.
#[derive(Clone, Debug, PartialEq)]
pub struct StaticAttr {
    pub revision: Uint,
    pub max_instance: Uint,
    pub number_of_instances: Uint,
}

impl StaticAttr {
    pub const REVISION: u16 = 1;

    pub const MAX_INSTANCE: u16 = 2;

    pub const NUMBER_OF_INSTANCES: u16 = 3;

    pub const ATTRIBUTE_END: u16 = 4;

    /// The wire form of one attribute; empty outside the supported range.
    pub open spec fn spec_attr_enc(self, n: u16) -> Seq<u8> {
        if n == 1 {
            self.revision.spec_enc()
        } else if n == 2 {
            self.max_instance.spec_enc()
        } else if n == 3 {
            self.number_of_instances.spec_enc()
        } else {
            Seq::<u8>::empty()
        }
    }

    /// Whether one attribute may be read over the wire.
    pub open spec fn spec_attr_getable(self, n: u16) -> bool {
        if n == 1 {
            self.revision.spec_acc().spec_getable()
        } else if n == 2 {
            self.max_instance.spec_acc().spec_getable()
        } else if n == 3 {
            self.number_of_instances.spec_acc().spec_getable()
        } else {
            false
        }
    }

    /// Whether one attribute may be written over the wire.
    pub open spec fn spec_attr_settable(self, n: u16) -> bool {
        if n == 1 {
            self.revision.spec_acc().spec_settable()
        } else if n == 2 {
            self.max_instance.spec_acc().spec_settable()
        } else if n == 3 {
            self.number_of_instances.spec_acc().spec_settable()
        } else {
            false
        }
    }

    /// Whether every attribute may be read over the wire.
    pub open spec fn spec_all_getable(self) -> bool {
        self.spec_attr_getable(1) && self.spec_attr_getable(2) && self.spec_attr_getable(3)
    }

    /// Whether every attribute may be written over the wire.
    pub open spec fn spec_all_settable(self) -> bool {
        self.spec_attr_settable(1) && self.spec_attr_settable(2) && self.spec_attr_settable(3)
    }

    /// The wire form of all attributes in order.
    pub open spec fn spec_enc(self) -> Seq<u8> {
        self.revision.spec_enc() + self.max_instance.spec_enc() + self.number_of_instances.spec_enc()
    }

    /// Create an instance whose attributes are all readable but not
    /// writable over the wire. Typically used for the server side;
    /// `Default` is typically for the client side.
    pub fn new(revision: u16, max_instance: u16, number_of_instances: u16) -> (r: Self)
        ensures
            r.revision.spec_val() == revision,
            r.max_instance.spec_val() == max_instance,
            r.number_of_instances.spec_val() == number_of_instances,
            r.spec_all_getable(),
            !r.spec_attr_settable(1) && !r.spec_attr_settable(2) && !r.spec_attr_settable(3),
    {
        proof {
            crate::attr::lemma_access_code_table();
        }
        let allow_serialize = AccessCode::new(AccessCode::GET);
        StaticAttr {
            revision: Uint::new(revision, allow_serialize),
            max_instance: Uint::new(max_instance, allow_serialize),
            number_of_instances: Uint::new(number_of_instances, allow_serialize),
        }
    }

    /// Serialize one specific attribute, selected by its identifier.
    pub fn serialize_attribute_single(&self, buf: &mut BytesMut, attr: Attr) -> (r: EipResult)
        ensures
            match r {
                Ok(()) => {
                    &&& 1 <= attr.0 <= 3
                    &&& self.spec_attr_getable(attr.0)
                    &&& bytes_of(*old(buf)).len() + 2 <= isize::MAX
                    &&& bytes_of(*final(buf)) == bytes_of(*old(buf)) + self.spec_attr_enc(attr.0)
                },
                Err(e) => {
                    &&& bytes_of(*final(buf)) == bytes_of(*old(buf))
                    &&& if !(1 <= attr.0 <= 3) {
                        e == ErrorCode::AttributeNotSupported
                    } else if !self.spec_attr_getable(attr.0) {
                        e == ErrorCode::AttributeNotGettable
                    } else {
                        e == ErrorCode::ReplyDataTooLarge && bytes_of(*old(buf)).len() + 2
                            > isize::MAX
                    }
                },
            },
    {
        if attr.0 == Self::REVISION {
            self.revision.serialize(buf)?;
        } else if attr.0 == Self::MAX_INSTANCE {
            self.max_instance.serialize(buf)?;
        } else if attr.0 == Self::NUMBER_OF_INSTANCES {
            self.number_of_instances.serialize(buf)?;
        } else {
            return Err(ErrorCode::AttributeNotSupported);
        }
        Ok(())
    }

    /// Deserialize one specific attribute, selected by its identifier.
    pub fn deserialize_attribute_single(&mut self, buf: &mut Reader, attr: Attr) -> (r: EipResult)
        ensures
            match r {
                Ok(()) => {
                    &&& 1 <= attr.0 <= 3
                    &&& old(self).spec_attr_settable(attr.0)
                    &&& old(buf).rest().len() >= 2
                    &&& (attr.0 != 1 ==> final(self).revision == old(self).revision)
                    &&& (attr.0 != 2 ==> final(self).max_instance == old(self).max_instance)
                    &&& (attr.0 != 3 ==> final(self).number_of_instances == old(
                        self,
                    ).number_of_instances)
                    &&& (attr.0 == 1 ==> final(self).revision.spec_val() == u16_le_val(
                        old(buf).rest()[0],
                        old(buf).rest()[1],
                    ) && final(self).revision.spec_acc() == old(self).revision.spec_acc())
                    &&& (attr.0 == 2 ==> final(self).max_instance.spec_val() == u16_le_val(
                        old(buf).rest()[0],
                        old(buf).rest()[1],
                    ) && final(self).max_instance.spec_acc() == old(self).max_instance.spec_acc())
                    &&& (attr.0 == 3 ==> final(self).number_of_instances.spec_val() == u16_le_val(
                        old(buf).rest()[0],
                        old(buf).rest()[1],
                    ) && final(self).number_of_instances.spec_acc() == old(
                        self,
                    ).number_of_instances.spec_acc())
                    &&& final(buf).rest() == old(buf).rest().skip(2)
                },
                Err(e) => {
                    &&& *final(self) == *old(self)
                    &&& *final(buf) == *old(buf)
                    &&& if !(1 <= attr.0 <= 3) {
                        e == ErrorCode::AttributeNotSupported
                    } else if !old(self).spec_attr_settable(attr.0) {
                        e == ErrorCode::AttributeNotSettable
                    } else {
                        e == ErrorCode::NotEnoughData && old(buf).rest().len() < 2
                    }
                },
            },
    {
        if attr.0 == Self::REVISION {
            self.revision.deserialize(buf)?;
        } else if attr.0 == Self::MAX_INSTANCE {
            self.max_instance.deserialize(buf)?;
        } else if attr.0 == Self::NUMBER_OF_INSTANCES {
            self.number_of_instances.deserialize(buf)?;
        } else {
            return Err(ErrorCode::AttributeNotSupported);
        }
        Ok(())
    }

    /// Deserialize all attributes in order. On failure the fields decoded
    /// before the failing one are already replaced; the caller must
    /// discard the object.
    pub fn deserialize(&mut self, buf: &mut Reader) -> (r: EipResult)
        ensures
            match r {
                Ok(()) => ({
                    let b = old(buf).rest();
                    &&& old(self).spec_all_settable()
                    &&& b.len() >= 6
                    &&& final(self).revision.spec_val() == u16_le_val(b[0], b[1])
                    &&& final(self).max_instance.spec_val() == u16_le_val(b[2], b[3])
                    &&& final(self).number_of_instances.spec_val() == u16_le_val(b[4], b[5])
                    &&& final(self).revision.spec_acc() == old(self).revision.spec_acc()
                    &&& final(self).max_instance.spec_acc() == old(self).max_instance.spec_acc()
                    &&& final(self).number_of_instances.spec_acc() == old(
                        self,
                    ).number_of_instances.spec_acc()
                    &&& final(buf).rest() == b.skip(6)
                }),
                Err(e) => ({
                    let b = old(buf).rest();
                    if !old(self).spec_attr_settable(1) {
                        e == ErrorCode::AttributeNotSettable
                    } else if b.len() < 2 {
                        e == ErrorCode::NotEnoughData
                    } else if !old(self).spec_attr_settable(2) {
                        e == ErrorCode::AttributeNotSettable
                    } else if b.len() < 4 {
                        e == ErrorCode::NotEnoughData
                    } else if !old(self).spec_attr_settable(3) {
                        e == ErrorCode::AttributeNotSettable
                    } else {
                        e == ErrorCode::NotEnoughData && b.len() < 6
                    }
                }),
            },
    {
        self.deserialize_attribute_single(buf, Attr(1))?;
        self.deserialize_attribute_single(buf, Attr(2))?;
        self.deserialize_attribute_single(buf, Attr(3))?;
        proof {
            assert(buf.rest() =~= old(buf).rest().skip(6));
        }
        Ok(())
    }

    /// Serialize all attributes in order. On failure the sink may hold the
    /// fields encoded before the failing one; the caller must discard it.
    pub fn serialize(&self, buf: &mut BytesMut) -> (r: EipResult)
        ensures
            match r {
                Ok(()) => {
                    &&& self.spec_all_getable()
                    &&& bytes_of(*old(buf)).len() + 6 <= isize::MAX
                    &&& bytes_of(*final(buf)) == bytes_of(*old(buf)) + self.spec_enc()
                },
                Err(e) => ({
                    let len = bytes_of(*old(buf)).len() as int;
                    if !self.spec_attr_getable(1) {
                        e == ErrorCode::AttributeNotGettable
                    } else if len + 2 > isize::MAX {
                        e == ErrorCode::ReplyDataTooLarge
                    } else if !self.spec_attr_getable(2) {
                        e == ErrorCode::AttributeNotGettable
                    } else if len + 4 > isize::MAX {
                        e == ErrorCode::ReplyDataTooLarge
                    } else if !self.spec_attr_getable(3) {
                        e == ErrorCode::AttributeNotGettable
                    } else {
                        e == ErrorCode::ReplyDataTooLarge && len + 6 > isize::MAX
                    }
                }),
            },
    {
        self.serialize_attribute_single(buf, Attr(1))?;
        self.serialize_attribute_single(buf, Attr(2))?;
        self.serialize_attribute_single(buf, Attr(3))?;
        proof {
            assert(bytes_of(*buf) =~= bytes_of(*old(buf)) + self.spec_enc());
        }
        Ok(())
    }
}

impl Default for StaticAttr {
    fn default() -> (r: Self)
        ensures
            r.revision.spec_val() == 0,
            r.max_instance.spec_val() == 0,
            r.number_of_instances.spec_val() == 0,
            r.spec_all_getable(),
            r.spec_all_settable(),
    {
        StaticAttr {
            revision: Uint::default(),
            max_instance: Uint::default(),
            number_of_instances: Uint::default(),
        }
    }
}

} // verus!
