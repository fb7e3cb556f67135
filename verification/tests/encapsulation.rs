use bytes::BytesMut;
use eip_protocol::eip::check_auto_traits;
use eip_protocol::encapsulation::{Command, Encapsulation};
use eip_protocol::error_code::ErrorCode;
use eip_protocol::reader::Reader;

#[test]
fn encapsulation_deserialize() {
    let mut enc = Encapsulation::default();
    let mut buf = Reader::new(
        b"\x01\0\x02\0\x03\0\0\0\x04\0\0\0\x01\x02\x03\x04\x05\x06\x07\x08\x05\0\0\0".to_vec(),
    );

    assert_eq!(Ok(()), enc.deserialize(&mut buf));
    assert_eq!(0, buf.remaining());
    assert_eq!(Command(1), enc.command);
    assert_eq!(2, enc.len);
    assert_eq!(3, enc.session);
    assert_eq!(4, enc.status);
    assert_eq!(&[1, 2, 3, 4, 5, 6, 7, 8], &enc.context);
    assert_eq!(5, enc.options);

    let mut buf = Reader::new(
        b"\x01\0\x02\0\x03\0\0\0\x04\0\0\0\x01\x02\x03\x04\x05\x06\x07\x08\x05\0\0".to_vec(),
    );
    assert_eq!(Err(ErrorCode::NotEnoughData), enc.deserialize(&mut buf));
}

#[test]
fn encapsulation_serialize() {
    let mut enc = Encapsulation::default();
    enc.command = Command(1);
    enc.len = 2;
    enc.session = 3;
    enc.status = 4;
    enc.context = [1, 2, 3, 4, 5, 6, 7, 8];
    enc.options = 5;
    let mut buf = BytesMut::with_capacity(100);
    assert_eq!(Ok(()), enc.serialize(&mut buf));
    assert_eq!(24, buf.len());
    assert_eq!(
        &b"\x01\0\x02\0\x03\0\0\0\x04\0\0\0\x01\x02\x03\x04\x05\x06\x07\x08\x05\0\0\0"[..],
        buf
    );
}

#[test]
fn encapsulation_auto_traits() {
    check_auto_traits::<Command>();
    check_auto_traits::<Encapsulation>();
}
