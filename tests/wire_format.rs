use frame_codec::{
    DecodeError, Flags, FrameHeaderV1, FrameV1, MsgType, HEADER_LEN_V1, MAGIC, VERSION_V1,
};

fn header(msg_type: MsgType, flags: u8, counter: u64) -> FrameHeaderV1 {
    FrameHeaderV1 {
        version: VERSION_V1,
        msg_type,
        flags: Flags::new(flags).unwrap(),
        device_id: *b"ABCDEFGH",
        counter,
    }
}

fn valid_header_bytes() -> Vec<u8> {
    vec![
        0x50, 0x50, 0x01, 0x01, 0x00, 0x41, 0x42, 0x43, 0x44, 0x45, 0x46, 0x47, 0x48, 0, 0, 0, 0,
        0, 0, 0, 7,
    ]
}

#[test]
fn command_header_encodes_to_known_bytes() {
    let h = header(MsgType::Command, 0, 123456);
    let bytes = h.encode();
    let expected: Vec<u8> = vec![
        0x50, 0x50, 0x01, 0x02, 0x00, 0x41, 0x42, 0x43, 0x44, 0x45, 0x46, 0x47, 0x48, 0x00, 0x00,
        0x00, 0x00, 0x00, 0x01, 0xE2, 0x40,
    ];
    assert_eq!(bytes, expected);
    assert_eq!(FrameHeaderV1::decode(&expected).unwrap(), h);
}

#[test]
fn encoded_header_is_always_21_bytes() {
    for (t, c) in [
        (MsgType::Event, 0u64),
        (MsgType::Ack, 1),
        (MsgType::Error, u64::MAX),
    ] {
        assert_eq!(header(t, 1, c).encode().len(), 21);
    }
    assert_eq!(HEADER_LEN_V1, 21);
}

#[test]
fn encoded_frame_length_is_header_plus_body() {
    let f = FrameV1 {
        header: header(MsgType::Ack, 0, 5),
        body: vec![9; 100],
    };
    assert_eq!(f.encode().len(), 21 + 100);
}

#[test]
fn counter_is_big_endian() {
    let bytes = header(MsgType::Event, 0, 0x0102_0304_0506_0708).encode();
    assert_eq!(&bytes[13..21], &[1, 2, 3, 4, 5, 6, 7, 8]);
    let max = header(MsgType::Event, 0, u64::MAX);
    assert_eq!(FrameHeaderV1::decode(&max.encode()).unwrap(), max);
}

#[test]
fn every_message_type_round_trips() {
    for t in [MsgType::Event, MsgType::Command, MsgType::Ack, MsgType::Error] {
        for flags in [0u8, 1] {
            let h = header(t, flags, 77);
            assert_eq!(FrameHeaderV1::decode(&h.encode()).unwrap(), h);
        }
    }
}

#[test]
fn message_type_tags() {
    assert_eq!(MsgType::Event.to_u8(), 0x01);
    assert_eq!(MsgType::Command.to_u8(), 0x02);
    assert_eq!(MsgType::Ack.to_u8(), 0x03);
    assert_eq!(MsgType::Error.to_u8(), 0x04);
    assert_eq!(MsgType::from_u8(0x03), Some(MsgType::Ack));
    assert_eq!(MsgType::from_u8(0x00), None);
    assert_eq!(MsgType::from_u8(0x05), None);
    for v in 0..=255u8 {
        if let Some(t) = MsgType::from_u8(v) {
            assert_eq!(t.to_u8(), v);
        }
    }
}

#[test]
fn flags_constructor_rejects_reserved_bits() {
    assert_eq!(Flags::new(0b1000_0000), Err(DecodeError::ReservedFlags(0b1000_0000)));
    assert_eq!(Flags::new(0xFF), Err(DecodeError::ReservedFlags(0xFF)));
    assert_eq!(Flags::new(1).unwrap().bits(), 1);
    assert_eq!(Flags::new(0).unwrap().bits(), 0);
}

#[test]
fn twenty_zero_bytes_are_too_short() {
    assert_eq!(FrameHeaderV1::decode(&[0u8; 20]), Err(DecodeError::TooShort));
    assert_eq!(FrameHeaderV1::decode(&[]), Err(DecodeError::TooShort));
    assert_eq!(FrameV1::decode(&[0u8; 20]), Err(DecodeError::TooShort));
}

#[test]
fn bad_magic_with_otherwise_valid_fields() {
    let mut bytes = valid_header_bytes();
    assert!(FrameHeaderV1::decode(&bytes).is_ok());
    bytes[0] = b'X';
    bytes[1] = b'Y';
    assert_eq!(FrameHeaderV1::decode(&bytes), Err(DecodeError::BadMagic));
    let mut second = valid_header_bytes();
    second[1] = 0x51;
    assert_eq!(FrameHeaderV1::decode(&second), Err(DecodeError::BadMagic));
    assert_eq!(MAGIC, *b"PP");
}

#[test]
fn ack_flag_decodes() {
    let mut bytes = valid_header_bytes();
    bytes[4] = 0b0000_0001;
    let h = FrameHeaderV1::decode(&bytes).unwrap();
    assert!(h.flags.ack_required());
    assert_eq!(h.flags.bits(), 1);
}

#[test]
fn unknown_type_on_well_formed_header() {
    let mut bytes = valid_header_bytes();
    bytes[3] = 0x99;
    assert_eq!(FrameHeaderV1::decode(&bytes), Err(DecodeError::UnknownMsgType(0x99)));
}

#[test]
fn first_violation_is_reported() {
    // too short and bad magic
    let mut short = valid_header_bytes();
    short.truncate(20);
    short[0] = b'X';
    assert_eq!(FrameHeaderV1::decode(&short), Err(DecodeError::TooShort));

    // bad magic, version, type and flags
    let mut bytes = valid_header_bytes();
    bytes[0] = 0;
    bytes[2] = 9;
    bytes[3] = 0x99;
    bytes[4] = 0xF0;
    assert_eq!(FrameHeaderV1::decode(&bytes), Err(DecodeError::BadMagic));

    // version, type and flags
    bytes[0] = 0x50;
    assert_eq!(FrameHeaderV1::decode(&bytes), Err(DecodeError::BadVersion(9)));

    // type and flags
    bytes[2] = VERSION_V1;
    assert_eq!(FrameHeaderV1::decode(&bytes), Err(DecodeError::UnknownMsgType(0x99)));

    // flags alone
    bytes[3] = 0x04;
    assert_eq!(FrameHeaderV1::decode(&bytes), Err(DecodeError::ReservedFlags(0xF0)));
}

#[test]
fn header_decode_ignores_trailing_bytes() {
    let mut bytes = valid_header_bytes();
    bytes.extend_from_slice(&[0xAA, 0xBB]);
    let h = FrameHeaderV1::decode(&bytes).unwrap();
    assert_eq!(h.counter, 7);
    assert_eq!(h.device_id, *b"ABCDEFGH");
    assert_eq!(h.msg_type, MsgType::Event);
}

#[test]
fn frame_with_empty_body_round_trips() {
    let f = FrameV1 {
        header: header(MsgType::Error, 1, 0),
        body: Vec::new(),
    };
    let bytes = f.encode();
    assert_eq!(bytes.len(), 21);
    let parsed = FrameV1::decode(&bytes).unwrap();
    assert_eq!(parsed, f);
    assert!(parsed.body.is_empty());
}

#[test]
fn frame_body_is_everything_after_the_header() {
    let mut bytes = valid_header_bytes();
    bytes.extend_from_slice(b"hello-body");
    let f = FrameV1::decode(&bytes).unwrap();
    assert_eq!(f.body, b"hello-body".to_vec());
    assert_eq!(f.encode(), bytes);
}

#[test]
fn frame_decode_passes_header_errors_on() {
    let mut bytes = valid_header_bytes();
    bytes[4] = 0b0000_0010;
    bytes.extend_from_slice(&[1, 2, 3]);
    assert_eq!(FrameV1::decode(&bytes), Err(DecodeError::ReservedFlags(0b0000_0010)));
}

#[test]
fn toggle_builds_the_header() {
    let h = FrameHeaderV1::toggle(VERSION_V1, MsgType::Ack, Flags::new(1).unwrap(), *b"DEV00001", 42);
    assert_eq!(h.version, VERSION_V1);
    assert_eq!(h.msg_type, MsgType::Ack);
    assert_eq!(h.flags.bits(), 1);
    assert_eq!(h.device_id, *b"DEV00001");
    assert_eq!(h.counter, 42);
}

#[test]
fn encode_keeps_an_unsupported_version() {
    let mut h = header(MsgType::Event, 0, 1);
    h.version = 0x07;
    let bytes = h.encode();
    assert_eq!(bytes[2], 0x07);
    assert_eq!(FrameHeaderV1::decode(&bytes), Err(DecodeError::BadVersion(0x07)));
}

#[test]
fn error_messages() {
    assert_eq!(DecodeError::TooShort.message(), "input too short");
    assert_eq!(DecodeError::BadMagic.message(), "bad magic");
    assert_eq!(DecodeError::BadVersion(0x02).message(), "unsupported version: 0x02");
    assert_eq!(DecodeError::UnknownMsgType(0x99).message(), "unknown msg_type: 0x99");
    assert_eq!(DecodeError::UnknownMsgType(0xAF).message(), "unknown msg_type: 0xaf");
    assert_eq!(
        DecodeError::ReservedFlags(0b0000_0010).message(),
        "reserved flag bits set: 0b00000010"
    );
    assert_eq!(
        DecodeError::ReservedFlags(0b1010_0001).message(),
        "reserved flag bits set: 0b10100001"
    );
    assert_eq!(DecodeError::BadDeviceIdBytes.message(), "bad device_id bytes");
    assert_eq!(DecodeError::BadCounterBytes.message(), "bad counter bytes");
}
