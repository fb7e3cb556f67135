use bytes::BytesMut;
use eip_protocol::eip::check_auto_traits;
use eip_protocol::error_code::ErrorCode;
use eip_protocol::reader::Reader;
use eip_protocol::send_data::SendData;

#[test]
fn send_data_deserialize() {
    let mut send_data = SendData::default();
    let mut buf = Reader::new(b"\0\0\0\0\0\0\x34\x12".to_vec());
    assert_eq!(Ok(()), send_data.deserialize(&mut buf));
    assert_eq!(0, buf.remaining());
    assert_eq!(0x1234, send_data.item_count);

    let mut buf = Reader::new(b"\0\0\0\0\0\0\x34".to_vec());
    assert_eq!(Err(ErrorCode::NotEnoughData), send_data.deserialize(&mut buf));
}

#[test]
fn send_data_serialize() {
    let mut send_data = SendData::default();
    send_data.item_count = 0x1234;
    let mut buf = BytesMut::with_capacity(100);
    assert_eq!(Ok(()), send_data.serialize(&mut buf));
    assert_eq!(8, buf.len());
    assert_eq!(&b"\0\0\0\0\0\0\x34\x12"[..], buf);
}

#[test]
fn send_data_auto_traits() {
    check_auto_traits::<SendData>();
}
