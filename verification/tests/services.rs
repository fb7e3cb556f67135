use bytes::BytesMut;
use eip_protocol::eip::check_auto_traits;
use eip_protocol::error_code::ErrorCode;
use eip_protocol::item::{Id, Item};
use eip_protocol::reader::Reader;
use eip_protocol::services::{Capability, Services};

#[test]
fn services_deserialize() {
    let mut srv = Services::default();
    let mut buf = Reader::new(b"\0\x01\x14\0\x01\0\x20\x01Communications\0\0".to_vec());

    assert_eq!(Ok(()), srv.deserialize(&mut buf));
    assert_eq!(0, buf.remaining());
    assert_eq!(Id(Item::SERVICES), srv.item.type_id);
    assert_eq!(20, srv.item.len);
    assert_eq!(1, srv.encapsulation_version);
    assert_eq!(
        Capability(Services::EIP_ENCAPSULATION | Services::SUPPORT_CLASS_01),
        srv.capability
    );
    assert_eq!(&b"Communications\0\0"[..], &srv.name[..]);

    let mut buf = Reader::new(b"\0\x01\x14\0\x01\0\x20\x01Communications\0".to_vec());
    assert_eq!(Err(ErrorCode::NotEnoughData), srv.deserialize(&mut buf));
}

#[test]
fn services_serialize() {
    let srv = Services::server();
    let mut buf = BytesMut::with_capacity(100);

    assert_eq!(Ok(()), srv.serialize(&mut buf));
    assert_eq!(24, buf.len());
    assert_eq!(&b"\0\x01\x14\0\x01\0\x20\x01Communications\0\0"[..], buf);
}

// The ListServices reply carries the item count of one in front of the
// service description.
#[test]
fn services_list() {
    let srv = Services::server();
    let mut buf = BytesMut::with_capacity(100);

    assert_eq!(Ok(()), srv.list(&mut buf));
    assert_eq!(26, buf.len());
    assert_eq!(&b"\x01\0\0\x01\x14\0\x01\0\x20\x01Communications\0\0"[..], buf);
}

#[test]
fn services_auto_traits() {
    check_auto_traits::<Capability>();
    check_auto_traits::<Services>();
}
