use bytes::BytesMut;
use eip_protocol::eip::check_auto_traits;
use eip_protocol::error_code::ErrorCode;
use eip_protocol::message_router::{Request, Response, Service};
use eip_protocol::reader::Reader;

#[test]
fn request_deserialize_logic_8() {
    // 8 bit 3 segments
    let mut request = Request::default();
    let mut buf = Reader::new(b"\x0e\x03\x20\x12\x24\x34\x30\x56".to_vec());
    assert_eq!(Ok(()), request.deserialize(&mut buf));
    assert_eq!(0, buf.remaining());
    assert_eq!(Some(0x12), request.class);
    assert_eq!(Some(0x34), request.instance);
    assert_eq!(Some(0x56), request.attribute);

    // 8 bit 2 segments
    let mut buf = Reader::new(b"\x0e\x02\x20\xff\x24\x00".to_vec());
    request = Request::default();
    assert_eq!(Ok(()), request.deserialize(&mut buf));
    assert_eq!(0, buf.remaining());
    assert_eq!(Some(0xff), request.class);
    assert_eq!(Some(0x00), request.instance);
    assert_eq!(None, request.attribute);
}

#[test]
fn request_deserialize_logic_16() {
    // 16 bit 3 segments
    let mut buf = Reader::new(b"\x0e\x03\x21\0\x34\x12\x25\0\x78\x56\x31\0\x12\x90".to_vec());
    let mut request = Request::default();
    assert_eq!(Ok(()), request.deserialize(&mut buf));
    assert_eq!(0, buf.remaining());
    assert_eq!(Some(0x1234), request.class);
    assert_eq!(Some(0x5678), request.instance);
    assert_eq!(Some(0x9012), request.attribute);
}

#[test]
fn request_deserialize_logic_bounds() {
    // no data, empty buffer
    let mut buf = Reader::new(Vec::new());
    let mut request = Request::default();
    assert_eq!(Err(ErrorCode::PathSegmentError), request.deserialize(&mut buf));

    // 8 bit 3 segments, one missing segment
    let mut buf = Reader::new(b"\x0e\x03\x20\xff\x24\x00".to_vec());
    request = Request::default();
    assert_eq!(Err(ErrorCode::PathSegmentError), request.deserialize(&mut buf));

    // 8 bit 3 segments, one missing value
    let mut buf = Reader::new(b"\x0e\x03\x20\x12\x24\x34\x30".to_vec());
    request = Request::default();
    assert_eq!(Err(ErrorCode::PathSegmentError), request.deserialize(&mut buf));

    // 8 bit 3 segments, one false formatted segment (\x24 -> \x26)
    let mut buf = Reader::new(b"\x0e\x03\x20\x12\x26\x34\x30\x56".to_vec());
    request = Request::default();
    assert_eq!(Err(ErrorCode::PathSegmentError), request.deserialize(&mut buf));
}

// An unrecognized segment type and an unrecognized level each fail
// PathSegmentError.
#[test]
fn request_deserialize_unknown_type_and_level() {
    // type bits 010 instead of the logical 001
    let mut buf = Reader::new(b"\x0e\x01\x40\x12".to_vec());
    let mut request = Request::default();
    assert_eq!(Err(ErrorCode::PathSegmentError), request.deserialize(&mut buf));

    // level bits 010: neither class, instance, nor attribute
    let mut buf = Reader::new(b"\x0e\x01\x28\x12".to_vec());
    request = Request::default();
    assert_eq!(Err(ErrorCode::PathSegmentError), request.deserialize(&mut buf));
}

#[test]
fn request_serialize_logic_8() {
    // 8 bit 3 segments
    let mut request = Request::default();
    request.service = Service(0x0e);
    request.class = Some(0x12);
    request.instance = Some(0x34);
    request.attribute = Some(0x56);

    let mut buf = BytesMut::with_capacity(100);

    assert_eq!(Ok(()), request.serialize(&mut buf));
    assert_eq!(8, buf.len());
    assert_eq!(&b"\x0e\x03\x20\x12\x24\x34\x30\x56"[..], buf);

    // 8 bit 2 segments
    request.attribute = None;

    buf.clear();

    assert_eq!(Ok(()), request.serialize(&mut buf));
    assert_eq!(6, buf.len());
    assert_eq!(&b"\x0e\x02\x20\x12\x24\x34"[..], buf);
}

#[test]
fn request_serialize_logic_16() {
    // 16 bit 3 segments
    let mut request = Request::default();
    request.service = Service(0x0e);
    request.class = Some(0x1234);
    request.instance = Some(0x5678);
    request.attribute = Some(0x9012);

    let mut buf = BytesMut::with_capacity(100);

    assert_eq!(Ok(()), request.serialize(&mut buf));
    assert_eq!(14, buf.len());
    assert_eq!(&b"\x0e\x03\x21\0\x34\x12\x25\0\x78\x56\x31\0\x12\x90"[..], buf);
}

// A later address component is emitted only when every earlier one is
// present: with only the attribute set, zero segments go on the wire, and
// with the instance missing the attribute is silently omitted.
#[test]
fn request_serialize_emission_policy() {
    let mut request = Request::default();
    request.service = Service(0x0e);
    request.attribute = Some(0x56);

    let mut buf = BytesMut::with_capacity(100);
    assert_eq!(Ok(()), request.serialize(&mut buf));
    assert_eq!(&b"\x0e\x00"[..], buf);

    request.class = Some(0x12);
    request.instance = None;
    buf.clear();
    assert_eq!(Ok(()), request.serialize(&mut buf));
    assert_eq!(&b"\x0e\x01\x20\x12"[..], buf);
}

// The path segment scenario round trip: the encoded triple decodes back
// to the same triple.
#[test]
fn request_path_round_trip() {
    let mut request = Request::default();
    request.service = Service(0x0e);
    request.class = Some(0x12);
    request.instance = Some(0x34);
    request.attribute = Some(0x56);

    let mut buf = BytesMut::with_capacity(100);
    assert_eq!(Ok(()), request.serialize(&mut buf));
    assert_eq!(&b"\x0e\x03\x20\x12\x24\x34\x30\x56"[..], buf);

    let mut back = Request::default();
    assert_eq!(Ok(()), back.deserialize(&mut Reader::new(buf.to_vec())));
    assert_eq!(request, back);

    // all components above one byte use the 16-bit form
    let mut wide = Request::default();
    wide.service = Service(0x0e);
    wide.class = Some(0x1234);
    wide.instance = Some(0x5678);
    wide.attribute = Some(0x9012);

    let mut buf2 = BytesMut::with_capacity(100);
    assert_eq!(Ok(()), wide.serialize(&mut buf2));
    assert_eq!(&b"\x0e\x03\x21\0\x34\x12\x25\0\x78\x56\x31\0\x12\x90"[..], buf2);

    let mut back2 = Request::default();
    assert_eq!(Ok(()), back2.deserialize(&mut Reader::new(buf2.to_vec())));
    assert_eq!(wide, back2);
}

#[test]
fn response_serialize() {
    let mut res = Response::default();
    res.service = Service(Request::GET_ATTRIBUTE_SINGLE);
    res.general_status = ErrorCode::ReplyDataTooLarge;

    let mut buf = BytesMut::with_capacity(100);

    assert_eq!(Ok(()), res.serialize(&mut buf));
    assert_eq!(4, buf.len());
    assert_eq!(&b"\x0e\0\x11\0"[..], buf);

    buf = BytesMut::with_capacity(100);
    res.additional_status_size = 2;
    res.additional_status[0] = 0x1234;
    res.additional_status[1] = 0x5678;

    assert_eq!(Ok(()), res.serialize(&mut buf));
    assert_eq!(8, buf.len());
    assert_eq!(&b"\x0e\0\x11\x02\x34\x12\x78\x56"[..], buf);
}

#[test]
fn response_deserialize() {
    let mut res = Response::default();
    let mut buf = Reader::new(b"\x0e\0\x11\0".to_vec());
    assert_eq!(Ok(()), res.deserialize(&mut buf));
    assert_eq!(0, buf.remaining());
    assert_eq!(Service(Request::GET_ATTRIBUTE_SINGLE), res.service);
    assert_eq!(ErrorCode::ReplyDataTooLarge, res.general_status);
}

#[test]
fn response_deserialize_bounds() {
    let mut res = Response::default();
    let mut buf = Reader::new(b"\x0e\0\x11".to_vec());
    assert_eq!(Err(ErrorCode::NotEnoughData), res.deserialize(&mut buf));

    let mut buf = Reader::new(b"\x0e\0\x11\x02\0\0\0".to_vec());
    assert_eq!(Err(ErrorCode::NotEnoughData), res.deserialize(&mut buf));
}

// A count above the cap of two is clamped: encode writes two words; decode
// of three words keeps the first two and consumes the third from the
// stream.
#[test]
fn response_additional_status_clamped() {
    let mut res = Response::default();
    res.service = Service(Request::GET_ATTRIBUTE_SINGLE);
    res.general_status = ErrorCode::ReplyDataTooLarge;
    res.additional_status_size = 3;
    res.additional_status[0] = 0x1234;
    res.additional_status[1] = 0x5678;

    let mut buf = BytesMut::with_capacity(100);
    assert_eq!(Ok(()), res.serialize(&mut buf));
    assert_eq!(&b"\x0e\0\x11\x02\x34\x12\x78\x56"[..], buf);

    let mut decoded = Response::default();
    let mut r = Reader::new(b"\x0e\0\x11\x03\x34\x12\x78\x56\xaa\xbb".to_vec());
    assert_eq!(Ok(()), decoded.deserialize(&mut r));
    assert_eq!(0, r.remaining());
    assert_eq!(2, decoded.additional_status_size);
    assert_eq!(0x1234, decoded.additional_status[0]);
    assert_eq!(0x5678, decoded.additional_status[1]);
}

#[test]
fn message_router_auto_traits() {
    check_auto_traits::<Request>();
    check_auto_traits::<Response>();
    check_auto_traits::<Service>();
}
