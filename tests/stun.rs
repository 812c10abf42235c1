use signaling_relay::stun::{Class, Header, Method, MsgType, StunError, TransactionId, MAGIC_COOKIE};

#[test]
fn header() {
    let msg_type = MsgType::new(Method::binding(), Class::ErrorResponse);

    let length = 1000;
    let transaction_id = TransactionId::new([1, 2, 3, 4, 5, 6, 7, 8, 9, 10, 11, 12]);

    let header = Header::new(msg_type, length, transaction_id);

    let bytes = header.to_bytes();

    assert_eq!(bytes[0..2], 0b0000000100010001_u16.to_be_bytes());
    assert_eq!(bytes[2..4], 1000_u16.to_be_bytes());
    assert_eq!(bytes[4..8], MAGIC_COOKIE.to_be_bytes());
    assert_eq!(bytes[8..], [1, 2, 3, 4, 5, 6, 7, 8, 9, 10, 11, 12]);
}

#[test]
fn header_is_twenty_bytes_and_repeatable() {
    let make = || {
        Header::new(
            MsgType::new(Method::binding(), Class::Request),
            0,
            TransactionId::new([0xff; 12]),
        )
    };
    let a = make().to_bytes();
    let b = make().to_bytes();
    assert_eq!(a.len(), 20);
    assert_eq!(a, b);
    assert_eq!(a[0..8], [0x00, 0x01, 0x00, 0x00, 0x21, 0x12, 0xA4, 0x42]);
}

#[test]
fn msg_type_each_class() {
    let code = |c: Class| MsgType::new(Method::binding(), c).to_bytes();
    assert_eq!(code(Class::Request), vec![0x00, 0x01]);
    assert_eq!(code(Class::Indication), vec![0x00, 0x11]);
    assert_eq!(code(Class::SuccessResponse), vec![0x01, 0x01]);
    assert_eq!(code(Class::ErrorResponse), vec![0x01, 0x11]);
}

#[test]
fn msg_type_spreads_all_method_bits() {
    let m = Method::from_code(0x0FFF).unwrap();
    assert_eq!(MsgType::new(m, Class::Request).to_bytes(), vec![0x3E, 0xEF]);
    let m = Method::from_code(0x0080).unwrap();
    assert_eq!(MsgType::new(m, Class::Request).to_bytes(), vec![0x02, 0x00]);
    let m = Method::from_code(0x0010).unwrap();
    assert_eq!(MsgType::new(m, Class::Request).to_bytes(), vec![0x00, 0x20]);
}

#[test]
fn method_code_must_fit_twelve_bits() {
    assert!(Method::from_code(0x1000).is_none());
    assert!(Method::from_code(0x0FFF).is_some());
}

#[test]
fn length_is_big_endian() {
    let h = Header::new(
        MsgType::new(Method::binding(), Class::Request),
        0x1234,
        TransactionId::new([0; 12]),
    );
    assert_eq!(h.to_bytes()[2..4], [0x12, 0x34]);
}

#[test]
fn transaction_id_from_slice() {
    let ok = TransactionId::from_slice(&[9, 8, 7, 6, 5, 4, 3, 2, 1, 0, 1, 2]).unwrap();
    assert_eq!(ok.to_bytes(), vec![9, 8, 7, 6, 5, 4, 3, 2, 1, 0, 1, 2]);
    assert_eq!(
        TransactionId::from_slice(&[1, 2, 3]).err(),
        Some(StunError::InvalidLength)
    );
    assert_eq!(
        TransactionId::from_slice(&[0; 13]).err(),
        Some(StunError::InvalidLength)
    );
}
