use bytes::BytesMut;
use eip_protocol::eip::check_auto_traits;
use eip_protocol::error_code::ErrorCode;
use eip_protocol::item::{frame_body, Id, Item};
use eip_protocol::reader::Reader;

#[test]
fn item_deserialize() {
    let mut item = Item::default();
    let mut buf = Reader::new(b"\0\0\x02\0".to_vec());
    assert_eq!(Ok(()), item.deserialize(&mut buf));
    assert_eq!(0, buf.remaining());
    assert_eq!(2, item.len);

    let mut buf = Reader::new(b"\0\0\x02".to_vec());
    assert_eq!(Err(ErrorCode::NotEnoughData), item.deserialize(&mut buf));
}

#[test]
fn item_serialize() {
    let mut item = Item::new(Id(Item::SEQUENCED_ADDRESS), 0);
    item.len = 3;
    let mut buf = BytesMut::with_capacity(100);
    assert_eq!(Ok(()), item.serialize(&mut buf));
    assert_eq!(4, buf.len());
    assert_eq!(&b"\x02\x80\x03\0"[..], buf);
}

// A length that does not fit the 16-bit wire field is refused.
#[test]
fn item_serialize_length_too_long() {
    let item = Item::new(Id(Item::IDENTITY), 0x10000);
    let mut buf = BytesMut::with_capacity(100);
    assert_eq!(Err(ErrorCode::ReplyDataTooLarge), item.serialize(&mut buf));
    assert_eq!(0, buf.len());
}

// The reserve/backfill framing protocol equals a direct sequential
// encoding of header-then-body with the length set to the body's size.
#[test]
fn frame_body_matches_direct_encoding() {
    let body = b"\xaa\xbb\xcc";
    let mut framed = BytesMut::with_capacity(100);
    assert_eq!(Ok(()), frame_body(Id(Item::UNCONNECTED_DATA), body, &mut framed));

    let mut direct = BytesMut::with_capacity(100);
    let item = Item::new(Id(Item::UNCONNECTED_DATA), body.len());
    assert_eq!(Ok(()), item.serialize(&mut direct));
    direct.extend_from_slice(body);

    assert_eq!(direct, framed);
    assert_eq!(&b"\xb2\0\x03\0\xaa\xbb\xcc"[..], framed);

    // an empty body frames the same way
    let mut empty = BytesMut::new();
    assert_eq!(Ok(()), frame_body(Id(Item::NULL_ADDRESS), b"", &mut empty));
    assert_eq!(&b"\0\0\0\0"[..], empty);
}

#[test]
fn item_auto_traits() {
    check_auto_traits::<Id>();
    check_auto_traits::<Item>();
}
