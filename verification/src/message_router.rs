//! The message-router codec: CIP service requests with their logical path
//! segments in the tagged 8-/16-bit encoding, and responses with up to two
//! additional 16-bit status words.

use vstd::prelude::*;

use crate::eip;
use crate::eip::EipResult;
use crate::error_code::ErrorCode;
use crate::reader::Reader;
use crate::sink;
use crate::sink::bytes_of;
use crate::wire::{le16, u16_le_val};
use bytes::BytesMut;

verus! {

/// The hard upper bound of retained additional status words.
pub const ADDITIONAL_STATUS_MAX: u8 = 2;

/// Tag byte, bits 7-5: the segment type.
pub const TYPE_MASK: u8 = 0xe0;

/// The only segment type accepted here: a logical segment.
pub const TYPE_LOGICAL: u8 = 0x20;

/// Tag byte, bits 4-2: which address component the segment carries.
pub const LEVEL_MASK: u8 = 0x1c;

pub const LEVEL_CLASS: u8 = 0x00;

pub const LEVEL_INSTANCE: u8 = 0x04;

pub const LEVEL_ATTRIBUTE: u8 = 0x10;

/// Tag byte, bits 1-0: the value's width.
pub const FORMAT_MASK: u8 = 0x03;

pub const FORMAT_8: u8 = 0x00;

pub const FORMAT_16: u8 = 0x01;

/// A CIP service code.
#[derive(Clone, Copy, Debug, PartialEq, Eq, Structural)]
pub struct Service(pub u8);

impl Default for Service {
    fn default() -> (r: Self)
        ensures
            r.0 == 0,
    {
        Service(0)
    }
}

/// A CIP service request: a service code plus up to three optional logical
/// address components, ordered class, then instance, then attribute.
/// `instance` is only meaningful when `class` is present and `attribute`
/// only when both are; encoding enforces that order (see [`Request::serialize`]).
#[derive(Clone, Debug, PartialEq)]
pub struct Request {
    pub service: Service,
    pub class: Option<u16>,
    pub instance: Option<u16>,
    pub attribute: Option<u16>,
}

impl Request {
    pub const GET_ATTRIBUTE_SINGLE: u8 = 0x0e;

    pub const SET_ATTRIBUTE_SINGLE: u8 = 0x0f;

    pub const GET_ATTRIBUTE_ALL: u8 = 0x01;

    pub const SET_ATTRIBUTE_ALL: u8 = 0x10;

    pub const NO_OPERATION: u8 = 0x17;

    pub const RESPONSE: u8 = 0x80;

    /// The request with one address component replaced by a decoded value,
    /// selected by the tag's level bits; an unrecognized level is refused.
    pub open spec fn spec_apply_segment(self, level: u8, v: u16) -> Option<Request> {
        if level == LEVEL_CLASS {
            Some(
                Request {
                    service: self.service,
                    class: Some(v),
                    instance: self.instance,
                    attribute: self.attribute,
                },
            )
        } else if level == LEVEL_INSTANCE {
            Some(
                Request {
                    service: self.service,
                    class: self.class,
                    instance: Some(v),
                    attribute: self.attribute,
                },
            )
        } else if level == LEVEL_ATTRIBUTE {
            Some(
                Request {
                    service: self.service,
                    class: self.class,
                    instance: self.instance,
                    attribute: Some(v),
                },
            )
        } else {
            None
        }
    }

    /// One logical segment parsed from the bytes that follow its tag:
    /// the updated request and how many of those bytes it used, or
    /// `PathSegmentError` for an unknown format or level or a truncated
    /// segment.
    pub open spec fn spec_parse_logical(self, seg: u8, bytes: Seq<u8>) -> Result<
        (Request, int),
        ErrorCode,
    > {
        if seg & FORMAT_MASK == FORMAT_8 {
            if bytes.len() < 1 {
                Err(ErrorCode::PathSegmentError)
            } else {
                match self.spec_apply_segment(seg & LEVEL_MASK, bytes[0] as u16) {
                    Some(q) => Ok((q, 1)),
                    None => Err(ErrorCode::PathSegmentError),
                }
            }
        } else if seg & FORMAT_MASK == FORMAT_16 {
            if bytes.len() < 3 {
                Err(ErrorCode::PathSegmentError)
            } else {
                match self.spec_apply_segment(seg & LEVEL_MASK, u16_le_val(bytes[1], bytes[2])) {
                    Some(q) => Ok((q, 3)),
                    None => Err(ErrorCode::PathSegmentError),
                }
            }
        } else {
            Err(ErrorCode::PathSegmentError)
        }
    }

    /// `n` segments parsed in sequence: the request after all of them and
    /// the bytes they used, or `PathSegmentError` where one is malformed,
    /// truncated, or of a type other than logical.
    pub open spec fn spec_parse_segments(self, bytes: Seq<u8>, n: nat) -> Result<
        (Request, int),
        ErrorCode,
    >
        decreases n,
    {
        if n == 0 {
            Ok((self, 0))
        } else if bytes.len() < 1 {
            Err(ErrorCode::PathSegmentError)
        } else if bytes[0] & TYPE_MASK == TYPE_LOGICAL {
            match self.spec_parse_logical(bytes[0], bytes.skip(1)) {
                Ok(p) => match p.0.spec_parse_segments(bytes.skip(1 + p.1), (n - 1) as nat) {
                    Ok(q) => Ok((q.0, 1 + p.1 + q.1)),
                    Err(e) => Err(e),
                },
                Err(e) => Err(e),
            }
        } else {
            Err(ErrorCode::PathSegmentError)
        }
    }

    /// A whole request parsed from the byte sequence: service byte, segment
    /// count, then that many segments applied to this request's fields.
    pub open spec fn spec_parse_request(self, bytes: Seq<u8>) -> Result<(Request, int), ErrorCode> {
        if bytes.len() < 2 {
            Err(ErrorCode::PathSegmentError)
        } else {
            let start = Request {
                service: Service(bytes[0]),
                class: self.class,
                instance: self.instance,
                attribute: self.attribute,
            };
            match start.spec_parse_segments(bytes.skip(2), bytes[1] as nat) {
                Ok(p) => Ok((p.0, 2 + p.1)),
                Err(e) => Err(e),
            }
        }
    }

    /// The wire form of one emitted segment: the 8-bit form when the value
    /// fits in one byte, else the 16-bit form with its mandatory pad byte.
    pub open spec fn spec_seg_enc(level: u8, v: u16) -> Seq<u8> {
        if v <= 0xff {
            seq![TYPE_LOGICAL | FORMAT_8 | level, v as u8]
        } else {
            seq![TYPE_LOGICAL | FORMAT_16 | level, 0u8] + le16(v)
        }
    }

    /// How many segments encoding emits: a later component is emitted only
    /// when every earlier one is present.
    pub open spec fn spec_seg_count(self) -> u8 {
        match self.class {
            None => 0,
            Some(_) => match self.instance {
                None => 1,
                Some(_) => match self.attribute {
                    None => 2,
                    Some(_) => 3,
                },
            },
        }
    }

    /// The encoded path: class, then instance, then attribute, each only
    /// when every earlier component is present.
    pub open spec fn spec_path_enc(self) -> Seq<u8> {
        match self.class {
            None => Seq::<u8>::empty(),
            Some(c) => Request::spec_seg_enc(LEVEL_CLASS, c) + (match self.instance {
                None => Seq::<u8>::empty(),
                Some(i) => Request::spec_seg_enc(LEVEL_INSTANCE, i) + (match self.attribute {
                    None => Seq::<u8>::empty(),
                    Some(a) => Request::spec_seg_enc(LEVEL_ATTRIBUTE, a),
                }),
            }),
        }
    }

    /// The wire form of the whole request.
    pub open spec fn spec_enc(self) -> Seq<u8> {
        seq![self.service.0, self.spec_seg_count()] + self.spec_path_enc()
    }

    /// Deserialize one logical segment whose tag byte has already been
    /// consumed. A failure past the tag leaves the value bytes consumed.
    fn deserialize_logical(&mut self, buf: &mut Reader, seg: u8) -> (r: EipResult)
        ensures
            match r {
                Ok(()) => old(self).spec_parse_logical(seg, old(buf).rest()) matches Ok(p)
                    && *final(self) == p.0 && final(buf).rest() == old(buf).rest().skip(p.1),
                Err(e) => {
                    &&& e == ErrorCode::PathSegmentError
                    &&& old(self).spec_parse_logical(seg, old(buf).rest()) == Err::<
                        (Request, int),
                        ErrorCode,
                    >(ErrorCode::PathSegmentError)
                },
            },
    {
        let val: u16;
        let fmt = seg & FORMAT_MASK;
        if fmt == FORMAT_8 {
            if buf.remaining() < 1 {
                return Err(ErrorCode::PathSegmentError);
            }
            val = buf.get_u8() as u16;
        } else if fmt == FORMAT_16 {
            if buf.remaining() < 3 {
                return Err(ErrorCode::PathSegmentError);
            }
            let _pad = buf.get_u8();
            proof {
                assert(buf.rest()[0] == old(buf).rest()[1]);
                assert(buf.rest()[1] == old(buf).rest()[2]);
            }
            val = buf.get_u16_le();
            proof {
                assert(buf.rest() =~= old(buf).rest().skip(3));
            }
        } else {
            return Err(ErrorCode::PathSegmentError);
        }

        let level = seg & LEVEL_MASK;
        if level == LEVEL_CLASS {
            self.class = Some(val);
        } else if level == LEVEL_INSTANCE {
            self.instance = Some(val);
        } else if level == LEVEL_ATTRIBUTE {
            self.attribute = Some(val);
        } else {
            return Err(ErrorCode::PathSegmentError);
        }
        Ok(())
    }

    /// Serialize one logical segment: tag byte then the value, in the
    /// 8-bit form when it fits, else pad byte and 16-bit value.
    fn serialize_logical(buf: &mut BytesMut, val: u16, tag: u8) -> (r: EipResult)
        requires
            bytes_of(*old(buf)).len() + 4 <= isize::MAX,
        ensures
            r == Ok::<(), ErrorCode>(()),
            bytes_of(*final(buf)) == bytes_of(*old(buf)) + Request::spec_seg_enc(tag, val),
    {
        if val <= 0xff {
            if sink::remaining_mut(buf) < 2 {
                // 8 bit tag + 8 bit value
                return Err(ErrorCode::ReplyDataTooLarge);
            }
            sink::put_u8(buf, TYPE_LOGICAL | FORMAT_8 | tag);
            sink::put_u8(buf, val as u8);
            proof {
                assert(bytes_of(*buf) =~= bytes_of(*old(buf)) + Request::spec_seg_enc(tag, val));
            }
        } else {
            if sink::remaining_mut(buf) < 4 {
                // 8 bit tag + 8 bit pad + 16 bit value
                return Err(ErrorCode::ReplyDataTooLarge);
            }
            sink::put_u8(buf, TYPE_LOGICAL | FORMAT_16 | tag);
            sink::put_u8(buf, 0);
            sink::put_u16_le(buf, val);
            proof {
                assert(bytes_of(*buf) =~= bytes_of(*old(buf)) + Request::spec_seg_enc(tag, val));
            }
        }
        Ok(())
    }

    /// Get the minimum serialized size in bytes: service plus segment count.
    pub fn serial_size(&self) -> (r: usize)
        ensures
            r == 2,
    {
        2
    }

    /// Deserialize all fields. Address components that no decoded segment
    /// addresses keep their previous values; on failure the request's state
    /// is undefined and the caller must discard it.
    pub fn deserialize(&mut self, buf: &mut Reader) -> (r: EipResult)
        ensures
            match r {
                Ok(()) => old(self).spec_parse_request(old(buf).rest()) matches Ok(p)
                    && *final(self) == p.0
                    && final(buf).rest() == old(buf).rest().skip(p.1),
                Err(e) => {
                    &&& e == ErrorCode::PathSegmentError
                    &&& old(self).spec_parse_request(old(buf).rest()) == Err::<
                        (Request, int),
                        ErrorCode,
                    >(ErrorCode::PathSegmentError)
                },
            },
    {
        if buf.remaining() < self.serial_size() {
            return Err(ErrorCode::PathSegmentError);
        }
        self.service = Service(buf.get_u8());
        let n = buf.get_u8();
        proof {
            assert(buf.rest() =~= old(buf).rest().skip(2));
        }
        let mut i: u8 = 0;
        while i < n
            invariant
                i <= n,
                buf.rest().len() + 2 <= old(buf).rest().len(),
                buf.rest() == old(buf).rest().skip(
                    old(buf).rest().len() - buf.rest().len(),
                ),
                ({
                    let step = self.spec_parse_segments(buf.rest(), (n - i) as nat);
                    let orig = old(self).spec_parse_request(old(buf).rest());
                    match step {
                        Ok(p) => orig == Ok::<(Request, int), ErrorCode>(
                            (p.0, old(buf).rest().len() - buf.rest().len() + p.1),
                        ),
                        Err(e) => orig == Err::<(Request, int), ErrorCode>(e),
                    }
                }),
            decreases n - i,
        {
            // number of path segments still owed
            if buf.remaining() < 1 {
                return Err(ErrorCode::PathSegmentError);
            }
            let ghost head = *self;
            let ghost pre = buf.rest();
            let seg = buf.get_u8();
            if (seg & TYPE_MASK) == TYPE_LOGICAL {
                let res = self.deserialize_logical(buf, seg);
                match res {
                    Ok(()) => {
                        proof {
                            let p = head.spec_parse_logical(seg, pre.skip(1)).unwrap();
                            assert(buf.rest() =~= pre.skip(1 + p.1));
                            assert(buf.rest() =~= old(buf).rest().skip(
                                old(buf).rest().len() - buf.rest().len(),
                            ));
                        }
                    },
                    Err(e) => {
                        return Err(e);
                    },
                }
            } else {
                return Err(ErrorCode::PathSegmentError);
            }
            i = i + 1;
        }
        Ok(())
    }

    /// Serialize all fields, using the framing protocol for the segment
    /// count: the segments are sized first, then the service byte and the
    /// count are written and the segment bytes follow them.
    ///
    /// The sink must have room for the largest request, fourteen bytes,
    /// under the allocation cap; within that bound encoding cannot fail.
    pub fn serialize(&self, buf: &mut BytesMut) -> (r: EipResult)
        requires
            bytes_of(*old(buf)).len() + 14 <= isize::MAX,
        ensures
            r == Ok::<(), ErrorCode>(()),
            bytes_of(*final(buf)) == bytes_of(*old(buf)) + self.spec_enc(),
    {
        let mut n: u8 = 0;  // Segment counter

        if sink::remaining_mut(buf) < self.serial_size() {
            return Err(ErrorCode::ReplyDataTooLarge);
        }
        let mut b = sink::empty_sink();  // room for the segments, joined after n

        if let Some(c) = self.class {
            Request::serialize_logical(&mut b, c, LEVEL_CLASS)?;
            n = n + 1;
            if let Some(ins) = self.instance {
                Request::serialize_logical(&mut b, ins, LEVEL_INSTANCE)?;
                n = n + 1;
                if let Some(a) = self.attribute {
                    Request::serialize_logical(&mut b, a, LEVEL_ATTRIBUTE)?;
                    n = n + 1;
                }
            }
        }
        proof {
            assert(bytes_of(b) =~= self.spec_path_enc());
        }

        sink::put_u8(buf, self.service.0);
        sink::put_u8(buf, n);
        sink::unsplit(buf, b);
        proof {
            assert(bytes_of(*buf) =~= bytes_of(*old(buf)) + self.spec_enc());
        }
        Ok(())
    }
}

impl Default for Request {
    fn default() -> (r: Self)
        ensures
            r.service.0 == 0,
            r.class is None,
            r.instance is None,
            r.attribute is None,
    {
        Request { service: Service(0), class: None, instance: None, attribute: None }
    }
}

/// Emission policy of the logical path: a later address component goes on
/// the wire only when every earlier one is present, so a request with only
/// its attribute set — no class and no instance — emits zero segments.
pub proof fn lemma_encode_order_policy(r: Request)
    requires
        r.class is None,
    ensures
        r.spec_seg_count() == 0,
        r.spec_path_enc() == Seq::<u8>::empty(),
        r.spec_enc() == seq![r.service.0, 0u8],
{
    assert(r.spec_enc() =~= seq![r.service.0, 0u8]);
}

/// A CIP service response: service code, one general status byte, and an
/// ordered sequence of at most two extended status words.
#[derive(Clone, Debug, PartialEq)]
pub struct Response {
    pub service: Service,
    pub general_status: ErrorCode,
    /// The number of 16 bit additional status words; never more than two
    /// are retained.
    pub additional_status_size: u8,
    pub additional_status: [u16; 2],
}

impl Response {
    /// How many additional status words the wire form carries: the stored
    /// count, clamped to the hard cap of two.
    pub open spec fn spec_kept(self) -> u8 {
        if self.additional_status_size > ADDITIONAL_STATUS_MAX {
            ADDITIONAL_STATUS_MAX
        } else {
            self.additional_status_size
        }
    }

    /// The wire form: service, one reserved byte, status, word count, then
    /// the retained words in little-endian.
    pub open spec fn spec_enc(self) -> Seq<u8> {
        seq![self.service.0, 0u8, self.general_status.spec_code(), self.spec_kept()] + (
        if self.spec_kept() >= 1 {
            le16(self.additional_status@[0])
        } else {
            Seq::<u8>::empty()
        }) + (
        if self.spec_kept() >= 2 {
            le16(self.additional_status@[1])
        } else {
            Seq::<u8>::empty()
        })
    }

    /// Get the serialized size in bytes; `additional_status_size` must be
    /// set correctly.
    pub fn serial_size(&self) -> (r: usize)
        ensures
            r == 4 + 2 * (self.additional_status_size as int),
    {
        4 + (self.additional_status_size as usize) * 2
    }

    /// Get the largest serialized size in bytes.
    pub fn serial_size_max(&self) -> (r: usize)
        ensures
            r == 8,
    {
        4 + (ADDITIONAL_STATUS_MAX as usize) * 2
    }

    /// Reserve room in a sink to serialize this later, at its largest
    /// size; see [`eip::split_off`].
    pub fn split_off(&self, buf: &mut BytesMut) -> (r: Result<BytesMut, ErrorCode>)
        ensures
            match r {
                Ok(rest) => {
                    &&& bytes_of(*old(buf)).len() + 8 <= isize::MAX
                    &&& bytes_of(rest) == Seq::<u8>::empty()
                    &&& bytes_of(*final(buf)) == bytes_of(*old(buf))
                },
                Err(e) => {
                    &&& e == ErrorCode::ReplyDataTooLarge
                    &&& bytes_of(*old(buf)).len() + 8 > isize::MAX
                    &&& bytes_of(*final(buf)) == bytes_of(*old(buf))
                },
            },
    {
        eip::split_off(buf, self.serial_size_max())
    }

    /// Deserialize all fields. A declared count above the cap has its first
    /// two words kept; the rest are consumed from the cursor, to keep the
    /// stream position correct, and discarded, and the stored count is
    /// clamped to two.
    pub fn deserialize(&mut self, buf: &mut Reader) -> (r: EipResult)
        ensures
            match r {
                Ok(()) => ({
                    let b = old(buf).rest();
                    &&& b.len() >= 4
                    &&& b.len() - 4 >= 2 * (b[3] as int)
                    &&& final(self).service.0 == b[0]
                    &&& final(self).general_status == ErrorCode::spec_from_code(b[2])
                    &&& final(self).additional_status_size == (if b[3] > 2 {
                        2u8
                    } else {
                        b[3]
                    })
                    &&& final(self).additional_status@[0] == (if b[3] >= 1 {
                        u16_le_val(b[4], b[5])
                    } else {
                        old(self).additional_status@[0]
                    })
                    &&& final(self).additional_status@[1] == (if b[3] >= 2 {
                        u16_le_val(b[6], b[7])
                    } else {
                        old(self).additional_status@[1]
                    })
                    &&& final(buf).rest() == b.skip(4 + 2 * (b[3] as int))
                }),
                Err(e) => ({
                    let b = old(buf).rest();
                    &&& e == ErrorCode::NotEnoughData
                    &&& final(self).additional_status_size == 0
                    &&& final(self).additional_status@ == old(self).additional_status@
                    &&& if b.len() < 4 {
                        &&& final(self).service == old(self).service
                        &&& final(self).general_status == old(self).general_status
                        &&& *final(buf) == *old(buf)
                    } else {
                        &&& b.len() - 4 < 2 * (b[3] as int)
                        &&& final(self).service.0 == b[0]
                        &&& final(self).general_status == ErrorCode::spec_from_code(b[2])
                        &&& final(buf).rest() == b.skip(4)
                    }
                }),
            },
    {
        self.additional_status_size = 0;
        if buf.remaining() < self.serial_size() {
            return Err(ErrorCode::NotEnoughData);
        }
        self.service = Service(buf.get_u8());
        let _reserved = buf.get_u8();
        proof {
            assert(buf.rest()[0] == old(buf).rest()[2]);
            assert(buf.rest()[1] == old(buf).rest()[3]);
        }
        self.general_status = ErrorCode::from_code(buf.get_u8());
        let size = buf.get_u8();
        proof {
            assert(buf.rest() =~= old(buf).rest().skip(4));
        }
        if buf.remaining() < (size as usize) * 2 {
            return Err(ErrorCode::NotEnoughData);
        }
        self.additional_status_size = size;

        let mut i: u8 = 0;
        while i < size
            invariant
                i <= size,
                old(buf).rest().len() >= 4 + 2 * (size as int),
                buf.rest() == old(buf).rest().skip(4 + 2 * (i as int)),
                self.service.0 == old(buf).rest()[0],
                self.general_status == ErrorCode::spec_from_code(old(buf).rest()[2]),
                size == old(buf).rest()[3],
                self.additional_status_size == (if i >= 3 {
                    2u8
                } else {
                    size
                }),
                self.additional_status@[0] == (if i >= 1 {
                    u16_le_val(old(buf).rest()[4], old(buf).rest()[5])
                } else {
                    old(self).additional_status@[0]
                }),
                self.additional_status@[1] == (if i >= 2 {
                    u16_le_val(old(buf).rest()[6], old(buf).rest()[7])
                } else {
                    old(self).additional_status@[1]
                }),
            decreases size - i,
        {
            let w = buf.get_u16_le();
            if i == 0 {
                self.additional_status = [w, self.additional_status[1]];
            } else if i == 1 {
                self.additional_status = [self.additional_status[0], w];
            } else {
                // too much additional status: consumed and discarded
                self.additional_status_size = ADDITIONAL_STATUS_MAX;
            }
            i = i + 1;
            proof {
                assert(buf.rest() =~= old(buf).rest().skip(4 + 2 * (i as int)));
            }
        }
        Ok(())
    }

    /// Serialize all fields; a stored count above the cap is clamped to
    /// two written words rather than failing.
    pub fn serialize(&self, buf: &mut BytesMut) -> (r: EipResult)
        ensures
            match r {
                Ok(()) => {
                    &&& bytes_of(*old(buf)).len() + 4 + 2 * (self.additional_status_size as int)
                        <= isize::MAX
                    &&& bytes_of(*final(buf)) == bytes_of(*old(buf)) + self.spec_enc()
                },
                Err(e) => {
                    &&& e == ErrorCode::ReplyDataTooLarge
                    &&& bytes_of(*old(buf)).len() + 4 + 2 * (self.additional_status_size as int)
                        > isize::MAX
                    &&& bytes_of(*final(buf)) == bytes_of(*old(buf))
                },
            },
    {
        if sink::remaining_mut(buf) < self.serial_size() {
            return Err(ErrorCode::ReplyDataTooLarge);
        }

        sink::put_u8(buf, self.service.0);
        sink::put_u8(buf, 0);
        sink::put_u8(buf, self.general_status.code());

        let mut size = self.additional_status_size;
        if size > ADDITIONAL_STATUS_MAX {
            // too much additional status, truncated
            size = ADDITIONAL_STATUS_MAX;
        }

        sink::put_u8(buf, size);
        if size >= 1 {
            sink::put_u16_le(buf, self.additional_status[0]);
        }
        if size >= 2 {
            sink::put_u16_le(buf, self.additional_status[1]);
        }
        proof {
            assert(bytes_of(*buf) =~= bytes_of(*old(buf)) + self.spec_enc());
        }
        Ok(())
    }
}

impl Default for Response {
    fn default() -> (r: Self)
        ensures
            r.service.0 == 0,
            r.general_status == ErrorCode::Success,
            r.additional_status_size == 0,
            r.additional_status@ == seq![0u16, 0u16],
    {
        let r = Response {
            service: Service(0),
            general_status: ErrorCode::Success,
            additional_status_size: 0,
            additional_status: [0, 0],
        };
        proof {
            assert(r.additional_status@ =~= seq![0u16, 0u16]);
        }
        r
    }
}

} // verus!
