use bytes::BytesMut;
use eip_protocol::eip::check_auto_traits;
use eip_protocol::identity::{Attr, Identity};
use eip_protocol::reader::Reader;

fn setup_test_identity() -> Identity {
    let name: String = str::to_string("Hello");
    let mut identity = Identity::new(1, 2, 3, 4, 5, name);

    identity.status.set(6);
    identity.state.set(7);
    identity.configuration_consistency_value.set(8);
    identity.heartbeat_interval.set(9);
    identity
}

#[test]
fn identity_deserialize() {
    let mut id = Identity::default();
    let mut buf = Reader::new(b"\x01\0\x02\0\x03\0\x04\0\0\0\x05\0\0\0\x05Hello\0\0\0\0".to_vec());

    assert_eq!(Ok(()), id.deserialize(&mut buf));

    assert_eq!(0, buf.remaining());
    assert_eq!(1, id.vendor_id.get());
    assert_eq!(2, id.device_type.get());
    assert_eq!(3, id.product_code.get());
    assert_eq!(4, id.revision.get());
    assert_eq!(5, id.serial_number.get());
}

#[test]
fn deserialize_single() {
    let mut id = Identity::default();
    let mut buf = Reader::new(b"\x06\x07".to_vec());
    assert_eq!(
        Ok(()),
        id.deserialize_attribute_single(&mut buf, Attr(Identity::STATUS))
    );
    assert_eq!(buf.remaining(), 0);
    assert_eq!(0x0706, id.status.get());
}

#[test]
fn identity_serialize() {
    let name: String = str::to_string("Hello");
    let id = Identity::new(1, 2, 3, 4, 5, name);
    let mut buf = BytesMut::with_capacity(100);
    assert_eq!(Ok(()), id.serialize(&mut buf));
    assert_eq!(24, buf.len());
    assert_eq!(&b"\x01\0\x02\0\x03\0\x04\0\0\0\x05\0\0\0\x05Hello\0\0\0\0"[..], buf);
}

#[test]
fn serialize_single() {
    let name: String = str::to_string("Hello");
    let id = Identity::new(1, 2, 3, 4, 5, name);
    let mut buf = BytesMut::with_capacity(10);
    assert_eq!(
        Ok(()),
        id.serialize_attribute_single(&mut buf, Attr(Identity::PRODUCT_NAME))
    );
    assert_eq!(6, buf.len());
    assert_eq!(&b"\x05Hello"[..], buf);
}

#[test]
fn get_attribute_device_type() {
    let mut buf = BytesMut::with_capacity(10);
    assert_eq!(
        Ok(()),
        setup_test_identity().serialize_attribute_single(&mut buf, Attr(Identity::DEVICE_TYPE))
    );
    assert_eq!(2, buf.len());
    assert_eq!(buf[0], 2);
    assert_eq!(buf[1], 0);
}

#[test]
fn get_attribute_state() {
    let mut buf = BytesMut::with_capacity(10);
    assert_eq!(
        Ok(()),
        setup_test_identity().serialize_attribute_single(&mut buf, Attr(Identity::STATE))
    );
    assert_eq!(1, buf.len());
    assert_eq!(7, buf[0]);
}

// The identity list: an identity item framed via the reserve/backfill
// protocol, byte-identical to writing the header with the known body
// length first and the body after it.
#[test]
fn identity_list() {
    let name: String = str::to_string("Hello");
    let id = Identity::new(1, 2, 3, 4, 5, name);
    let mut buf = BytesMut::with_capacity(100);

    assert_eq!(Ok(()), id.list(&mut buf));
    assert_eq!(43, buf.len());
    assert_eq!(
        &b"\x0c\0'\0\x01\0\0\0\0\0\0\0\0\0\0\0\0\0\0\0\0\0\x01\0\x02\0\x03\0\x04\0\0\0\x05\0\0\0\x05Hello\0"[..],
        buf
    );
}

#[test]
fn identity_auto_traits() {
    check_auto_traits::<Attr>();
    check_auto_traits::<Identity>();
}
