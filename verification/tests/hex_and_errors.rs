use admin_core::errors::{AppError, CardError, KeySlot};
use admin_core::hex_codec::{decode_hex, encode_hex};

#[test]
fn encode_produces_lower_case_pairs() {
    assert_eq!(encode_hex(&[0xde, 0xad, 0xbe, 0xef]), "deadbeef");
    assert_eq!(encode_hex(&[]), "");
    assert_eq!(encode_hex(&[0x00, 0x01, 0x0f, 0xf0]), "00010ff0");
}

#[test]
fn encode_agrees_with_the_hex_crate() {
    let bytes: Vec<u8> = (0u16..=255u16).map(|b| b as u8).collect();
    assert_eq!(encode_hex(&bytes), hex::encode(&bytes));
}

#[test]
fn decode_accepts_both_letter_cases() {
    assert_eq!(decode_hex("a0b1c2d3e4f5"), Some(vec![0xa0, 0xb1, 0xc2, 0xd3, 0xe4, 0xf5]));
    assert_eq!(decode_hex("A0B1C2D3E4F5"), Some(vec![0xa0, 0xb1, 0xc2, 0xd3, 0xe4, 0xf5]));
    assert_eq!(decode_hex(""), Some(vec![]));
}

#[test]
fn decode_agrees_with_the_hex_crate() {
    let text = "000102030405060708090a0b0c0d0e0f missing".replace(" missing", "");
    assert_eq!(decode_hex(&text), Some(hex::decode(&text).unwrap()));
}

#[test]
fn decode_rejects_odd_length_and_bad_digits() {
    assert_eq!(decode_hex("abc"), None);
    assert_eq!(decode_hex("zz"), None);
    assert_eq!(decode_hex("0g"), None);
    assert_eq!(decode_hex("a"), None);
}

#[test]
fn round_trip_decode_of_encode() {
    let data: Vec<u8> = vec![0x12, 0x34, 0xab, 0xcd, 0x00, 0xff];
    assert_eq!(decode_hex(&encode_hex(&data)), Some(data));
}

#[test]
fn decimal_rendering_of_bytes() {
    assert_eq!(admin_core::errors::decimal_str_u8(0), "0");
    assert_eq!(admin_core::errors::decimal_str_u8(7), "7");
    assert_eq!(admin_core::errors::decimal_str_u8(10), "10");
    assert_eq!(admin_core::errors::decimal_str_u8(42), "42");
    assert_eq!(admin_core::errors::decimal_str_u8(100), "100");
    assert_eq!(admin_core::errors::decimal_str_u8(255), "255");
}

#[test]
fn invalid_input_messages() {
    assert_eq!(
        CardError::InvalidKeyLength.message(),
        "key must be 6 bytes (12 hex characters)"
    );
    assert_eq!(CardError::InvalidKeyType.message(), "key type must be A or B");
    assert_eq!(
        CardError::InvalidDataLength.message(),
        "block data must be 16 bytes (32 hex characters)"
    );
    assert_eq!(CardError::InvalidHex.message(), "malformed hexadecimal text");
    assert_eq!(CardError::InvalidSector.message(), "sector must be between 0 and 39");
}

#[test]
fn protocol_failure_messages_carry_the_raw_bytes() {
    assert_eq!(
        CardError::KeyLoadFailed(vec![0x63, 0x00]).message(),
        "failed to load key into reader: 6300"
    );
    assert_eq!(
        CardError::BlockReadFailed(vec![0x6a, 0x81]).message(),
        "failed to read block: 6a81"
    );
    assert_eq!(
        CardError::BlockWriteFailed(vec![0x65, 0x81]).message(),
        "failed to write block: 6581"
    );
    assert_eq!(
        CardError::UidReadFailed(vec![0x63, 0x00]).message(),
        "failed to read card uid: 6300"
    );
}

#[test]
fn authentication_failure_message_identifies_block_and_key() {
    let e = CardError::AuthenticationFailed { block: 7, slot: KeySlot::B };
    assert_eq!(
        e.message(),
        "authentication failed for block 7 with key B; check the key and the block number"
    );
    let e = CardError::AuthenticationFailed { block: 159, slot: KeySlot::A };
    assert_eq!(
        e.message(),
        "authentication failed for block 159 with key A; check the key and the block number"
    );
}

#[test]
fn transient_condition_messages() {
    assert_eq!(
        CardError::NoCardPresent.message(),
        "no card present; place a card on the reader"
    );
    assert_eq!(CardError::CardRemoved.message(), "card removed");
    assert_eq!(CardError::ReaderUnavailable.message(), "reader unavailable");
    assert_eq!(
        CardError::SharingViolation.message(),
        "reader is busy in another process"
    );
    assert_eq!(
        CardError::HardwareError(String::from("it broke")).message(),
        "hardware error: it broke"
    );
}

#[test]
fn app_error_folds_every_variant_into_one_message() {
    let e = AppError::from_card_error(&CardError::InvalidKeyLength);
    assert_eq!(e.message(), "key must be 6 bytes (12 hex characters)");
    let e: AppError = String::from("backend said no").into();
    assert_eq!(e.message(), "backend said no");
    let e: AppError = "plain text".into();
    assert_eq!(e.message(), "plain text");
    let e = AppError::from_text("other text");
    assert_eq!(e.message(), "other text");
}
