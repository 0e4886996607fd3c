use admin_core::apdu::{
    build_auth_apdu, build_get_uid_apdu, build_load_key_apdu, build_read_apdu, build_trailer_image,
    build_write_apdu, check_auth_response, check_load_key_response, check_write_response,
    interpret_read_response, interpret_uid_response, trailer_block_addr,
};
use admin_core::errors::{CardError, KeySlot};
use admin_core::nfc_handler::{parse_key_hex, parse_key_slot};
use admin_core::session::{
    begin_change_keys, begin_read, begin_uid_query, begin_write, parse_data_hex,
    read_block_result, Action, Event, OpOutcome,
};

fn transmitted(a: Action) -> Vec<u8> {
    match a {
        Action::Transmit(apdu) => apdu,
        other => panic!("expected a transmit action, got {:?}", other),
    }
}

#[test]
fn key_slot_codes() {
    assert_eq!(KeySlot::A.code(), 0x60);
    assert_eq!(KeySlot::B.code(), 0x61);
}

#[test]
fn key_slot_parses_only_the_two_letters() {
    assert!(matches!(parse_key_slot("A"), Ok(KeySlot::A)));
    assert!(matches!(parse_key_slot("B"), Ok(KeySlot::B)));
    assert!(matches!(parse_key_slot("C"), Err(CardError::InvalidKeyType)));
    assert!(matches!(parse_key_slot("a"), Err(CardError::InvalidKeyType)));
    assert!(matches!(parse_key_slot(""), Err(CardError::InvalidKeyType)));
    assert!(matches!(parse_key_slot("AB"), Err(CardError::InvalidKeyType)));
}

#[test]
fn key_hex_must_decode_to_six_bytes() {
    assert_eq!(
        parse_key_hex("ffffffffffff").unwrap(),
        vec![0xff, 0xff, 0xff, 0xff, 0xff, 0xff]
    );
    assert!(matches!(parse_key_hex("ffffffffff"), Err(CardError::InvalidKeyLength)));
    assert!(matches!(parse_key_hex("ffffffffffffff"), Err(CardError::InvalidKeyLength)));
    assert!(matches!(parse_key_hex(""), Err(CardError::InvalidKeyLength)));
    assert!(matches!(parse_key_hex("gggggggggggg"), Err(CardError::InvalidHex)));
    assert!(matches!(parse_key_hex("fffffffffff"), Err(CardError::InvalidHex)));
}

#[test]
fn data_hex_must_decode_to_sixteen_bytes() {
    let data = parse_data_hex("000102030405060708090a0b0c0d0e0f").unwrap();
    assert_eq!(data.len(), 16);
    assert_eq!(data[0], 0x00);
    assert_eq!(data[15], 0x0f);
    assert!(matches!(
        parse_data_hex("000102030405060708090a0b0c0d0e"),
        Err(CardError::InvalidDataLength)
    ));
    assert!(matches!(parse_data_hex(""), Err(CardError::InvalidDataLength)));
    assert!(matches!(parse_data_hex("zz"), Err(CardError::InvalidHex)));
}

#[test]
fn load_key_apdu_bytes() {
    let key = vec![0xa0, 0xa1, 0xa2, 0xa3, 0xa4, 0xa5];
    assert_eq!(
        build_load_key_apdu(&key),
        vec![0xff, 0x82, 0x00, 0x00, 0x06, 0xa0, 0xa1, 0xa2, 0xa3, 0xa4, 0xa5]
    );
}

#[test]
fn auth_apdu_bytes() {
    assert_eq!(
        build_auth_apdu(4, KeySlot::A),
        vec![0xff, 0x86, 0x00, 0x00, 0x05, 0x01, 0x00, 0x04, 0x60, 0x00]
    );
    assert_eq!(
        build_auth_apdu(63, KeySlot::B),
        vec![0xff, 0x86, 0x00, 0x00, 0x05, 0x01, 0x00, 0x3f, 0x61, 0x00]
    );
}

#[test]
fn read_write_and_uid_apdu_bytes() {
    assert_eq!(build_read_apdu(4), vec![0xff, 0xb0, 0x00, 0x04, 0x10]);
    let data: Vec<u8> = (0u8..16u8).collect();
    let apdu = build_write_apdu(9, &data);
    assert_eq!(&apdu[..5], &[0xff, 0xd6, 0x00, 0x09, 0x10]);
    assert_eq!(&apdu[5..], &data[..]);
    assert_eq!(build_get_uid_apdu(), vec![0xff, 0xca, 0x00, 0x00, 0x00]);
}

#[test]
fn trailer_addresses() {
    assert_eq!(trailer_block_addr(0), 3);
    assert_eq!(trailer_block_addr(1), 7);
    assert_eq!(trailer_block_addr(15), 63);
    assert_eq!(trailer_block_addr(39), 159);
}

#[test]
fn trailer_image_layout() {
    let key_a = vec![0x01, 0x02, 0x03, 0x04, 0x05, 0x06];
    let key_b = vec![0x11, 0x12, 0x13, 0x14, 0x15, 0x16];
    let image = build_trailer_image(&key_a, &key_b);
    assert_eq!(image.len(), 16);
    assert_eq!(&image[..6], &key_a[..]);
    assert_eq!(&image[6..10], &[0xff, 0x07, 0x80, 0x69]);
    assert_eq!(&image[10..], &key_b[..]);
}

#[test]
fn load_key_response_success_and_failure() {
    assert!(check_load_key_response(&vec![0x90, 0x00]).is_ok());
    match check_load_key_response(&vec![0x63, 0x00]) {
        Err(CardError::KeyLoadFailed(raw)) => assert_eq!(raw, vec![0x63, 0x00]),
        other => panic!("wrong outcome: {:?}", other),
    }
}

#[test]
fn auth_generic_failure_names_block_and_slot() {
    assert!(check_auth_response(&vec![0x90, 0x00], 4, KeySlot::A).is_ok());
    match check_auth_response(&vec![0x63, 0x00], 4, KeySlot::A) {
        Err(CardError::AuthenticationFailed { block, slot }) => {
            assert_eq!(block, 4);
            assert_eq!(slot, KeySlot::A);
        },
        other => panic!("wrong outcome: {:?}", other),
    }
    let msg = check_auth_response(&vec![0x63, 0x00], 4, KeySlot::A)
        .unwrap_err()
        .message();
    assert!(msg.contains("block 4"));
    assert!(msg.contains("key A"));
}

#[test]
fn read_of_sixteen_zero_bytes_renders_as_thirty_two_zeros() {
    let mut resp = vec![0u8; 16];
    resp.push(0x90);
    resp.push(0x00);
    assert_eq!(
        read_block_result(&resp).unwrap(),
        "00000000000000000000000000000000"
    );
}

#[test]
fn read_response_interpretation() {
    let mut resp = vec![0xca, 0xfe];
    resp.push(0x90);
    resp.push(0x00);
    assert_eq!(interpret_read_response(&resp).unwrap(), vec![0xca, 0xfe]);
    match interpret_read_response(&vec![0x63, 0x00]) {
        Err(CardError::BlockReadFailed(raw)) => assert_eq!(raw, vec![0x63, 0x00]),
        other => panic!("wrong outcome: {:?}", other),
    }
    match interpret_read_response(&vec![0x90]) {
        Err(CardError::BlockReadFailed(raw)) => assert_eq!(raw, vec![0x90]),
        other => panic!("wrong outcome: {:?}", other),
    }
}

#[test]
fn write_response_interpretation() {
    assert!(check_write_response(&vec![0x90, 0x00]).is_ok());
    match check_write_response(&vec![0x65, 0x81]) {
        Err(CardError::BlockWriteFailed(raw)) => assert_eq!(raw, vec![0x65, 0x81]),
        other => panic!("wrong outcome: {:?}", other),
    }
}

#[test]
fn uid_response_interpretation() {
    let resp = vec![0x04, 0xa2, 0x2b, 0x1c, 0x90, 0x00];
    assert_eq!(interpret_uid_response(&resp).unwrap(), vec![0x04, 0xa2, 0x2b, 0x1c]);
    match interpret_uid_response(&vec![0x63, 0x00]) {
        Err(CardError::UidReadFailed(raw)) => assert_eq!(raw, vec![0x63, 0x00]),
        other => panic!("wrong outcome: {:?}", other),
    }
}

#[test]
fn invalid_key_is_rejected_before_any_hardware_access() {
    // A bad request never reaches the connect action: the session refuses
    // to begin at all.
    assert!(matches!(
        begin_read(4, "A", "ffffffffff"),
        Err(CardError::InvalidKeyLength)
    ));
    assert!(matches!(
        begin_read(4, "Q", "ffffffffffff"),
        Err(CardError::InvalidKeyType)
    ));
    assert!(matches!(
        begin_read(4, "A", "zzffffffffff"),
        Err(CardError::InvalidHex)
    ));
}

#[test]
fn invalid_write_request_is_rejected_before_any_hardware_access() {
    assert!(matches!(
        begin_write(4, "A", "ffffffffffff", "00112233"),
        Err(CardError::InvalidDataLength)
    ));
    assert!(matches!(
        begin_write(4, "A", "ffffffffffff", "zz"),
        Err(CardError::InvalidHex)
    ));
    // The key is held to account before the data.
    assert!(matches!(
        begin_write(4, "A", "ffff", "00112233"),
        Err(CardError::InvalidKeyLength)
    ));
}

#[test]
fn invalid_change_keys_request_is_rejected_before_any_hardware_access() {
    let key = "ffffffffffff";
    assert!(matches!(
        begin_change_keys(40, "A", key, key, key),
        Err(CardError::InvalidSector)
    ));
    assert!(matches!(
        begin_change_keys(1, "A", key, "ffff", key),
        Err(CardError::InvalidKeyLength)
    ));
    assert!(matches!(
        begin_change_keys(1, "X", key, key, key),
        Err(CardError::InvalidKeyType)
    ));
}

#[test]
fn read_session_walks_the_fixed_sequence() {
    let (mut op, first) = begin_read(4, "A", "a0a1a2a3a4a5").unwrap();
    assert!(matches!(first, Action::Connect));
    let load = transmitted(op.step(Event::Connected));
    assert_eq!(
        load,
        vec![0xff, 0x82, 0x00, 0x00, 0x06, 0xa0, 0xa1, 0xa2, 0xa3, 0xa4, 0xa5]
    );
    let auth = transmitted(op.step(Event::Response(vec![0x90, 0x00])));
    assert_eq!(
        auth,
        vec![0xff, 0x86, 0x00, 0x00, 0x05, 0x01, 0x00, 0x04, 0x60, 0x00]
    );
    let read = transmitted(op.step(Event::Response(vec![0x90, 0x00])));
    assert_eq!(read, vec![0xff, 0xb0, 0x00, 0x04, 0x10]);
    let mut resp = vec![0u8; 16];
    resp.push(0x90);
    resp.push(0x00);
    match op.step(Event::Response(resp)) {
        Action::Succeed(OpOutcome::BlockData(data_hex)) => {
            assert_eq!(data_hex, "00000000000000000000000000000000");
        },
        other => panic!("wrong outcome: {:?}", other),
    }
}

#[test]
fn write_then_read_round_trip_over_the_data_path() {
    // What a write session sends is the decoded payload; a read session
    // whose card answers with those bytes hands the same text back.
    let data_hex = "0123456789abcdef0123456789abcdef";
    let key = "ffffffffffff";

    let (mut w, _) = begin_write(8, "B", key, data_hex).unwrap();
    w.step(Event::Connected);
    let auth = transmitted(w.step(Event::Response(vec![0x90, 0x00])));
    assert_eq!(auth[8], 0x61);
    let write = transmitted(w.step(Event::Response(vec![0x90, 0x00])));
    assert_eq!(&write[..5], &[0xff, 0xd6, 0x00, 0x08, 0x10]);
    let written = write[5..].to_vec();
    assert_eq!(written, parse_data_hex(data_hex).unwrap());
    assert!(matches!(
        w.step(Event::Response(vec![0x90, 0x00])),
        Action::Succeed(OpOutcome::Written)
    ));

    let (mut r, _) = begin_read(8, "B", key).unwrap();
    r.step(Event::Connected);
    r.step(Event::Response(vec![0x90, 0x00]));
    r.step(Event::Response(vec![0x90, 0x00]));
    let mut resp = written;
    resp.push(0x90);
    resp.push(0x00);
    match r.step(Event::Response(resp)) {
        Action::Succeed(OpOutcome::BlockData(rendered)) => assert_eq!(rendered, data_hex),
        other => panic!("wrong outcome: {:?}", other),
    }
}

#[test]
fn change_keys_session_authenticates_and_rewrites_the_trailer() {
    let (mut op, _) = begin_change_keys(
        1,
        "A",
        "ffffffffffff",
        "010203040506",
        "111213141516",
    )
    .unwrap();
    op.step(Event::Connected);
    let auth = transmitted(op.step(Event::Response(vec![0x90, 0x00])));
    // The trailer block of sector 1 is block 7.
    assert_eq!(auth[7], 0x07);
    let write = transmitted(op.step(Event::Response(vec![0x90, 0x00])));
    assert_eq!(&write[..5], &[0xff, 0xd6, 0x00, 0x07, 0x10]);
    assert_eq!(&write[5..11], &[0x01, 0x02, 0x03, 0x04, 0x05, 0x06]);
    assert_eq!(&write[11..15], &[0xff, 0x07, 0x80, 0x69]);
    assert_eq!(&write[15..], &[0x11, 0x12, 0x13, 0x14, 0x15, 0x16]);
    assert!(matches!(
        op.step(Event::Response(vec![0x90, 0x00])),
        Action::Succeed(OpOutcome::KeysChanged)
    ));
}

#[test]
fn uid_session_needs_no_key() {
    let (mut op, first) = begin_uid_query();
    assert!(matches!(first, Action::Connect));
    let query = transmitted(op.step(Event::Connected));
    assert_eq!(query, vec![0xff, 0xca, 0x00, 0x00, 0x00]);
    match op.step(Event::Response(vec![0x04, 0xa2, 0x2b, 0x1c, 0x90, 0x00])) {
        Action::Succeed(OpOutcome::Uid(uid)) => assert_eq!(uid, vec![0x04, 0xa2, 0x2b, 0x1c]),
        other => panic!("wrong outcome: {:?}", other),
    }
}

#[test]
fn key_load_failure_ends_the_session_with_the_raw_response() {
    let (mut op, _) = begin_read(4, "A", "ffffffffffff").unwrap();
    op.step(Event::Connected);
    match op.step(Event::Response(vec![0x63, 0x00])) {
        Action::Fail(CardError::KeyLoadFailed(raw)) => assert_eq!(raw, vec![0x63, 0x00]),
        other => panic!("wrong outcome: {:?}", other),
    }
}

#[test]
fn auth_failure_in_session_names_block_and_slot() {
    let (mut op, _) = begin_read(4, "A", "ffffffffffff").unwrap();
    op.step(Event::Connected);
    op.step(Event::Response(vec![0x90, 0x00]));
    match op.step(Event::Response(vec![0x63, 0x00])) {
        Action::Fail(CardError::AuthenticationFailed { block, slot }) => {
            assert_eq!(block, 4);
            assert_eq!(slot, KeySlot::A);
        },
        other => panic!("wrong outcome: {:?}", other),
    }
}

#[test]
fn transport_failure_ends_the_session_wherever_it_strikes() {
    let (mut op, _) = begin_read(4, "A", "ffffffffffff").unwrap();
    match op.step(Event::Failed(CardError::NoCardPresent)) {
        Action::Fail(CardError::NoCardPresent) => {},
        other => panic!("wrong outcome: {:?}", other),
    }
    let (mut op, _) = begin_write(4, "A", "ffffffffffff", "00112233445566778899aabbccddeeff")
        .unwrap();
    op.step(Event::Connected);
    match op.step(Event::Failed(CardError::SharingViolation)) {
        Action::Fail(CardError::SharingViolation) => {},
        other => panic!("wrong outcome: {:?}", other),
    }
}
