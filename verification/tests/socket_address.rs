use bytes::BytesMut;
use eip_protocol::eip::check_auto_traits;
use eip_protocol::error_code::ErrorCode;
use eip_protocol::reader::Reader;
use eip_protocol::socket_address::{Family, SocketAddress};

#[test]
fn socket_address_deserialize() {
    let mut sa = SocketAddress::default();
    let mut buf = Reader::new(b"\0\x02\xaf\x12\x12\x34\x56\x78\0\0\0\0\0\0\0\0".to_vec());

    assert_eq!(Ok(()), sa.deserialize(&mut buf));
    assert_eq!(0, buf.remaining());
    assert_eq!(Family(2), sa.family);
    assert_eq!(44818, sa.port);
    assert_eq!(0x12345678, sa.addr);
}

#[test]
fn deserialize_bounds() {
    let mut sa = SocketAddress::default();
    let mut buf = Reader::new(b"\0\x02\xaf\x12\x12\x34\x56\x78\0\0\0\0\0\0\0".to_vec());

    assert_eq!(Err(ErrorCode::NotEnoughData), sa.deserialize(&mut buf));
}

#[test]
fn socket_address_serialize() {
    let sa = SocketAddress::server(0x12345678, 44818);
    let mut buf = BytesMut::with_capacity(100);

    assert_eq!(Ok(()), sa.serialize(&mut buf));
    assert_eq!(16, buf.len());
    assert_eq!(&b"\0\x02\xaf\x12\x12\x34\x56\x78\0\0\0\0\0\0\0\0"[..], buf);
}

#[test]
fn socket_address_auto_traits() {
    check_auto_traits::<Family>();
    check_auto_traits::<SocketAddress>();
}
