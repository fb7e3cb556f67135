use bytes::BytesMut;
use eip_protocol::attr::{AccessCode, DInt, Duint, Int, ShortString, Sint, Uint, Usint};
use eip_protocol::eip::check_auto_traits;
use eip_protocol::error_code::ErrorCode;
use eip_protocol::reader::Reader;

#[test]
fn attr_auto_traits() {
    check_auto_traits::<AccessCode>();
    check_auto_traits::<Usint>();
    check_auto_traits::<Uint>();
    check_auto_traits::<Duint>();
    check_auto_traits::<ShortString>();
}

#[test]
fn access_codes() {
    let mut access = AccessCode::new(AccessCode::GET);
    assert_eq!(true, access.getable());
    assert_eq!(false, access.settable());

    access = AccessCode::new(AccessCode::SET);
    assert_eq!(false, access.getable());
    assert_eq!(true, access.settable());

    access = AccessCode::new(AccessCode::NONE);
    assert_eq!(false, access.getable());
    assert_eq!(false, access.settable());
}

#[test]
fn sint() {
    let mut sint = Sint::new(123, AccessCode::new(AccessCode::GET));
    sint.set(122);
    assert_eq!(122, sint.get());

    let mut buf = Reader::new(b"\x06\x07\x08\x09".to_vec());
    sint = Sint::new(123, AccessCode::new(AccessCode::SET));
    assert_eq!(Ok(()), sint.deserialize(&mut buf));
    assert_eq!(buf.remaining(), 3);
    assert_eq!(0x06, sint.get());

    let mut buf2 = BytesMut::with_capacity(10);
    sint = Sint::new(0x12, AccessCode::new(AccessCode::GET));
    assert_eq!(Ok(()), sint.serialize(&mut buf2));
    assert_eq!(1, buf2.len());
    assert_eq!(&b"\x12"[..], &buf2);

    sint = Sint::new(123, AccessCode::new(AccessCode::GET | AccessCode::SET));
    assert_eq!(123, sint.get());
}

#[test]
fn sint_bounds() {
    let mut buf = BytesMut::with_capacity(10);
    let bounds_list: [i8; 3] = [-128, 0, 127];
    let getable = AccessCode::new(AccessCode::GET);
    let mut inst = Sint::new(123, getable.clone());

    for i in 0..bounds_list.len() {
        let bound = bounds_list[i];
        inst.set(bound);
        assert_eq!(bound, inst.get());
    }

    for i in 0..bounds_list.len() {
        buf.clear();
        let bound = bounds_list[i];
        inst = Sint::new(bound, getable.clone());
        assert_eq!(bound, inst.get());
        assert_eq!(Ok(()), inst.serialize(&mut buf));
        assert_eq!(1, buf.len());
        assert_eq!(bound, buf[0] as i8);
    }
}

#[test]
fn int_attr() {
    let mut int = Int::new(12345, AccessCode::new(AccessCode::GET));
    int.set(22222);
    assert_eq!(22222, int.get());

    let mut buf = Reader::new(b"\x06\x07\x08\x09".to_vec());
    int = Int::new(123, AccessCode::new(AccessCode::SET));
    assert_eq!(Ok(()), int.deserialize(&mut buf));
    assert_eq!(buf.remaining(), 2);
    assert_eq!(0x0706, int.get());

    let mut buf2 = BytesMut::with_capacity(10);
    int = Int::new(0x1234, AccessCode::new(AccessCode::GET));
    assert_eq!(Ok(()), int.serialize(&mut buf2));
    assert_eq!(2, buf2.len());
    assert_eq!(&b"\x34\x12"[..], &buf2);

    int = Int::new(12345, AccessCode::new(AccessCode::GET | AccessCode::SET));
    assert_eq!(12345, int.get());
}

#[test]
fn int_bounds() {
    let mut buf = BytesMut::with_capacity(10);
    let bounds_list: [i16; 3] = [-32768, 0, 32767];
    let getable = AccessCode::new(AccessCode::GET);
    let mut inst = Int::new(12345, getable.clone());

    for i in 0..bounds_list.len() {
        let bound = bounds_list[i];
        inst.set(bound);
        assert_eq!(bound, inst.get());
    }

    for i in 0..bounds_list.len() {
        buf.clear();
        let bound = bounds_list[i];
        inst = Int::new(bound, getable.clone());
        assert_eq!(bound, inst.get());
        assert_eq!(Ok(()), inst.serialize(&mut buf));
        assert_eq!(2, buf.len());
        assert_eq!(bound & 0xff, buf[0] as i16);
        assert_eq!((bound >> 8) & 0xff, buf[1] as i16);
    }
}

#[test]
fn dint() {
    let mut dint = DInt::new(123, AccessCode::new(AccessCode::GET));
    dint.set(22222222);
    assert_eq!(22222222, dint.get());

    let mut buf = Reader::new(b"\x06\x07\x08\x09".to_vec());
    dint = DInt::new(123, AccessCode::new(AccessCode::SET));
    assert_eq!(Ok(()), dint.deserialize(&mut buf));
    assert_eq!(buf.remaining(), 0);
    assert_eq!(0x09080706, dint.get());

    let mut buf2 = BytesMut::with_capacity(10);
    dint = DInt::new(0x12345678, AccessCode::new(AccessCode::GET));
    assert_eq!(Ok(()), dint.serialize(&mut buf2));
    assert_eq!(4, buf2.len());
    assert_eq!(&b"\x78\x56\x34\x12"[..], &buf2);

    dint = DInt::new(12345678, AccessCode::new(AccessCode::GET | AccessCode::SET));
    assert_eq!(12345678, dint.get());
}

#[test]
fn dint_bounds() {
    let mut buf = BytesMut::with_capacity(10);
    let bounds_list: [i32; 3] = [-2147483648, 0, 2147483647];
    let getable = AccessCode::new(AccessCode::GET);
    let mut inst = DInt::new(123456789, getable.clone());

    for i in 0..bounds_list.len() {
        let bound = bounds_list[i];
        inst.set(bound);
        assert_eq!(bound, inst.get());
    }

    for i in 0..bounds_list.len() {
        buf.clear();
        let bound = bounds_list[i];
        inst = DInt::new(bound, getable.clone());
        assert_eq!(bound, inst.get());
        assert_eq!(Ok(()), inst.serialize(&mut buf));
        assert_eq!(4, buf.len());
        assert_eq!(bound & 0xff, buf[0] as i32);
        assert_eq!((bound >> 8) & 0xff, buf[1] as i32);
        assert_eq!((bound >> 16) & 0xff, buf[2] as i32);
        assert_eq!((bound >> 24) & 0xff, buf[3] as i32);
    }
}

#[test]
fn usint() {
    let mut sint = Usint::new(123, AccessCode::new(AccessCode::GET));
    sint.set(222);
    assert_eq!(222, sint.get());

    let mut buf = Reader::new(b"\x06\x07\x08\x09".to_vec());
    sint = Usint::new(123, AccessCode::new(AccessCode::SET));
    assert_eq!(Ok(()), sint.deserialize(&mut buf));
    assert_eq!(buf.remaining(), 3);
    assert_eq!(0x06, sint.get());

    let mut buf2 = BytesMut::with_capacity(10);
    sint = Usint::new(0x12, AccessCode::new(AccessCode::GET));
    assert_eq!(Ok(()), sint.serialize(&mut buf2));
    assert_eq!(1, buf2.len());
    assert_eq!(&b"\x12"[..], &buf2);

    sint = Usint::new(123, AccessCode::new(AccessCode::GET | AccessCode::SET));
    assert_eq!(123, sint.get());
}

#[test]
fn usint_bounds() {
    let mut buf = BytesMut::with_capacity(10);
    let bounds_list: [u8; 3] = [0, 127, 255];
    let getable = AccessCode::new(AccessCode::GET);
    let mut inst = Usint::new(123, getable.clone());

    for i in 0..bounds_list.len() {
        let bound = bounds_list[i];
        inst.set(bound);
        assert_eq!(bound, inst.get());
    }

    for i in 0..bounds_list.len() {
        buf.clear();
        let bound = bounds_list[i];
        inst = Usint::new(bound, getable.clone());
        assert_eq!(bound, inst.get());
        assert_eq!(Ok(()), inst.serialize(&mut buf));
        assert_eq!(1, buf.len());
        assert_eq!(bound, buf[0]);
    }
}

#[test]
fn uint() {
    let mut int = Uint::new(12345, AccessCode::new(AccessCode::GET));
    int.set(22222);
    assert_eq!(22222, int.get());

    let mut buf = Reader::new(b"\x06\x07\x08\x09".to_vec());
    int = Uint::new(123, AccessCode::new(AccessCode::SET));
    assert_eq!(Ok(()), int.deserialize(&mut buf));
    assert_eq!(buf.remaining(), 2);
    assert_eq!(0x0706, int.get());

    let mut buf2 = BytesMut::with_capacity(10);
    int = Uint::new(0x1234, AccessCode::new(AccessCode::GET));
    assert_eq!(Ok(()), int.serialize(&mut buf2));
    assert_eq!(2, buf2.len());
    assert_eq!(&b"\x34\x12"[..], &buf2);

    int = Uint::new(12345, AccessCode::new(AccessCode::GET | AccessCode::SET));
    assert_eq!(12345, int.get());
}

#[test]
fn uint_bounds() {
    let mut buf = BytesMut::with_capacity(10);
    let bounds_list: [u16; 3] = [0, 32768, 65535];
    let getable = AccessCode::new(AccessCode::GET);
    let mut inst = Uint::new(12345, getable.clone());

    for i in 0..bounds_list.len() {
        let bound = bounds_list[i];
        inst.set(bound);
        assert_eq!(bound, inst.get());
    }

    for i in 0..bounds_list.len() {
        buf.clear();
        let bound = bounds_list[i];
        inst = Uint::new(bound, getable.clone());
        assert_eq!(bound, inst.get());
        assert_eq!(Ok(()), inst.serialize(&mut buf));
        assert_eq!(2, buf.len());
        assert_eq!(bound & 0xff, buf[0] as u16);
        assert_eq!((bound >> 8) & 0xff, buf[1] as u16);
    }
}

#[test]
fn duint() {
    let mut dint = Duint::new(123, AccessCode::new(AccessCode::GET));
    dint.set(22222222);
    assert_eq!(22222222, dint.get());

    let mut buf = Reader::new(b"\x06\x07\x08\x09".to_vec());
    dint = Duint::new(123, AccessCode::new(AccessCode::SET));
    assert_eq!(Ok(()), dint.deserialize(&mut buf));
    assert_eq!(buf.remaining(), 0);
    assert_eq!(0x09080706, dint.get());

    let mut buf2 = BytesMut::with_capacity(10);
    dint = Duint::new(0x12345678, AccessCode::new(AccessCode::GET));
    assert_eq!(Ok(()), dint.serialize(&mut buf2));
    assert_eq!(4, buf2.len());
    assert_eq!(&b"\x78\x56\x34\x12"[..], &buf2);

    dint = Duint::new(12345678, AccessCode::new(AccessCode::GET | AccessCode::SET));
    assert_eq!(12345678, dint.get());
}

#[test]
fn duint_bounds() {
    let mut buf = BytesMut::with_capacity(10);
    let bounds_list: [u32; 3] = [0, 2147483648, 4294967295];
    let getable = AccessCode::new(AccessCode::GET);
    let mut inst = Duint::new(123456789, getable.clone());

    for i in 0..bounds_list.len() {
        let bound = bounds_list[i];
        inst.set(bound);
        assert_eq!(bound, inst.get());
    }

    for i in 0..bounds_list.len() {
        buf.clear();
        let bound = bounds_list[i];
        inst = Duint::new(bound, getable.clone());
        assert_eq!(bound, inst.get());
        assert_eq!(Ok(()), inst.serialize(&mut buf));
        assert_eq!(4, buf.len());
        assert_eq!(bound & 0xff, buf[0] as u32);
        assert_eq!((bound >> 8) & 0xff, buf[1] as u32);
        assert_eq!((bound >> 16) & 0xff, buf[2] as u32);
        assert_eq!((bound >> 24) & 0xff, buf[3] as u32);
    }
}

#[test]
fn short_string() {
    let mut buf = Reader::new(b"\x05Hello".to_vec());
    let mut ss = ShortString::default();
    assert_eq!(Ok(()), ss.deserialize(&mut buf));
    assert_eq!(buf.remaining(), 0);

    let mut buf2 = BytesMut::with_capacity(10);
    let ss = ShortString::with_capacity(
        "Hello".into(),
        AccessCode::new(AccessCode::GET | AccessCode::SET),
        100,
    );
    assert_eq!(Ok(()), ss.serialize(&mut buf2));
    assert_eq!(6, buf2.len());
    assert_eq!(&b"\x05Hello"[..], &buf2);
}

// Every attribute width round-trips over the wire: decoding what was
// encoded restores the value, when access permits both directions.
#[test]
fn wire_round_trip_every_width() {
    let both = AccessCode::new(AccessCode::GET | AccessCode::SET);

    for v in [i8::MIN, -1, 0, 1, i8::MAX] {
        let mut buf = BytesMut::new();
        assert_eq!(Ok(()), Sint::new(v, both.clone()).serialize(&mut buf));
        let mut back = Sint::new(0, both.clone());
        assert_eq!(Ok(()), back.deserialize(&mut Reader::new(buf.to_vec())));
        assert_eq!(v, back.get());
    }
    for v in [i16::MIN, -1, 0, 1, 0x1234, i16::MAX] {
        let mut buf = BytesMut::new();
        assert_eq!(Ok(()), Int::new(v, both.clone()).serialize(&mut buf));
        let mut back = Int::new(0, both.clone());
        assert_eq!(Ok(()), back.deserialize(&mut Reader::new(buf.to_vec())));
        assert_eq!(v, back.get());
    }
    for v in [i32::MIN, -1, 0, 1, 0x12345678, i32::MAX] {
        let mut buf = BytesMut::new();
        assert_eq!(Ok(()), DInt::new(v, both.clone()).serialize(&mut buf));
        let mut back = DInt::new(0, both.clone());
        assert_eq!(Ok(()), back.deserialize(&mut Reader::new(buf.to_vec())));
        assert_eq!(v, back.get());
    }
    for v in [0u8, 1, 0x7f, 0x80, u8::MAX] {
        let mut buf = BytesMut::new();
        assert_eq!(Ok(()), Usint::new(v, both.clone()).serialize(&mut buf));
        let mut back = Usint::new(0, both.clone());
        assert_eq!(Ok(()), back.deserialize(&mut Reader::new(buf.to_vec())));
        assert_eq!(v, back.get());
    }
    for v in [0u16, 1, 0x1234, 0x8000, u16::MAX] {
        let mut buf = BytesMut::new();
        assert_eq!(Ok(()), Uint::new(v, both.clone()).serialize(&mut buf));
        let mut back = Uint::new(0, both.clone());
        assert_eq!(Ok(()), back.deserialize(&mut Reader::new(buf.to_vec())));
        assert_eq!(v, back.get());
    }
    for v in [0u32, 1, 0x12345678, 0x80000000, u32::MAX] {
        let mut buf = BytesMut::new();
        assert_eq!(Ok(()), Duint::new(v, both.clone()).serialize(&mut buf));
        let mut back = Duint::new(0, both.clone());
        assert_eq!(Ok(()), back.deserialize(&mut Reader::new(buf.to_vec())));
        assert_eq!(v, back.get());
    }
}

// Decoding with fewer bytes than the fixed width fails NotEnoughData and
// leaves the stored value unchanged.
#[test]
fn decode_short_buffer_not_enough_data() {
    let both = AccessCode::new(AccessCode::GET | AccessCode::SET);

    let mut s = Sint::new(55, both.clone());
    assert_eq!(
        Err(ErrorCode::NotEnoughData),
        s.deserialize(&mut Reader::new(Vec::new()))
    );
    assert_eq!(55, s.get());

    let mut i = Int::new(556, both.clone());
    assert_eq!(
        Err(ErrorCode::NotEnoughData),
        i.deserialize(&mut Reader::new(b"\x01".to_vec()))
    );
    assert_eq!(556, i.get());

    let mut d = DInt::new(557, both.clone());
    assert_eq!(
        Err(ErrorCode::NotEnoughData),
        d.deserialize(&mut Reader::new(b"\x01\x02\x03".to_vec()))
    );
    assert_eq!(557, d.get());

    let mut us = Usint::new(56, both.clone());
    assert_eq!(
        Err(ErrorCode::NotEnoughData),
        us.deserialize(&mut Reader::new(Vec::new()))
    );
    assert_eq!(56, us.get());

    let mut ui = Uint::new(558, both.clone());
    assert_eq!(
        Err(ErrorCode::NotEnoughData),
        ui.deserialize(&mut Reader::new(b"\x01".to_vec()))
    );
    assert_eq!(558, ui.get());

    let mut du = Duint::new(559, both.clone());
    assert_eq!(
        Err(ErrorCode::NotEnoughData),
        du.deserialize(&mut Reader::new(b"\x01\x02\x03".to_vec()))
    );
    assert_eq!(559, du.get());
}

// A read-only mask refuses decode with AttributeNotSettable; a write-only
// mask refuses encode with AttributeNotGettable.
#[test]
fn access_mask_gates_wire_directions() {
    let read_only = AccessCode::new(AccessCode::GET);
    let write_only = AccessCode::new(AccessCode::SET);

    let mut a = Uint::new(7, read_only.clone());
    assert_eq!(
        Err(ErrorCode::AttributeNotSettable),
        a.deserialize(&mut Reader::new(b"\x01\x02".to_vec()))
    );
    assert_eq!(7, a.get());

    let b = Uint::new(7, write_only.clone());
    let mut sink = BytesMut::new();
    assert_eq!(Err(ErrorCode::AttributeNotGettable), b.serialize(&mut sink));
    assert_eq!(0, sink.len());

    let mut s = ShortString::with_capacity("x".into(), read_only, 10);
    assert_eq!(
        Err(ErrorCode::AttributeNotSettable),
        s.deserialize(&mut Reader::new(b"\x01y".to_vec()))
    );

    let t = ShortString::with_capacity("x".into(), write_only, 10);
    let mut sink2 = BytesMut::new();
    assert_eq!(Err(ErrorCode::AttributeNotGettable), t.serialize(&mut sink2));
}

// Setting a string longer than its capacity truncates to exactly the
// capacity; a declared wire length over the capacity fails TooMuchData
// without touching the stored value.
#[test]
fn short_string_capacity_bounds() {
    let both = AccessCode::new(AccessCode::GET | AccessCode::SET);

    let mut ss = ShortString::with_capacity("".into(), both.clone(), 4);
    ss.set("abcdefgh".into());
    assert_eq!(5, ss.serial_size());
    let mut buf = BytesMut::new();
    assert_eq!(Ok(()), ss.serialize(&mut buf));
    assert_eq!(&b"\x04abcd"[..], &buf);

    let long = ShortString::with_capacity("abcdefgh".into(), both.clone(), 4);
    let mut buf2 = BytesMut::new();
    assert_eq!(Ok(()), long.serialize(&mut buf2));
    assert_eq!(&b"\x04abcd"[..], &buf2);

    let mut small = ShortString::with_capacity("keep".into(), both.clone(), 4);
    let mut r = Reader::new(b"\x05Hello".to_vec());
    assert_eq!(Err(ErrorCode::TooMuchData), small.deserialize(&mut r));
    let mut buf3 = BytesMut::new();
    assert_eq!(Ok(()), small.serialize(&mut buf3));
    assert_eq!(&b"\x04keep"[..], &buf3);
}

// Bytes that are not valid text are refused with InvalidParameter, and the
// declared length is still consumed from the stream.
#[test]
fn short_string_rejects_invalid_text() {
    let mut ss = ShortString::default();
    let mut r = Reader::new(b"\x02\xff\xfe\x99".to_vec());
    assert_eq!(Err(ErrorCode::InvalidParameter), ss.deserialize(&mut r));
    assert_eq!(1, r.remaining());
}
