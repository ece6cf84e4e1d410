use j4i2prs::base64::{decode, encode, is_valid_b64};
use j4i2prs::error::StageError;
use j4i2prs::text::dec_u16;

#[test]
fn encode_three_bytes() {
    assert_eq!(encode(&[77u8, 97, 110]), "TWFu");
}

#[test]
fn encode_with_padding() {
    assert_eq!(encode(&[77u8]), "TQ==");
    assert_eq!(encode(&[77u8, 97]), "TWE=");
    assert_eq!(encode(&[]), "");
}

#[test]
fn encode_uses_engine_alphabet() {
    // The two last alphabet positions are `-` and `~`, not `+` and `/`.
    assert_eq!(encode(&[0xFFu8, 0xFF, 0xFF]), "~~~~");
    assert_eq!(encode(&[0xFBu8, 0xEF, 0xBE]), "----");
}

#[test]
fn decode_three_bytes() {
    assert_eq!(decode("TWFu").unwrap(), vec![77u8, 97, 110]);
}

#[test]
fn decode_with_padding() {
    assert_eq!(decode("TQ==").unwrap(), vec![77u8]);
    assert_eq!(decode("TWE=").unwrap(), vec![77u8, 97]);
    assert_eq!(decode("").unwrap(), Vec::<u8>::new());
}

#[test]
fn decode_zero_byte() {
    assert_eq!(decode("AA==").unwrap(), vec![0u8]);
    assert_eq!(decode("AAAA").unwrap(), vec![0u8, 0, 0]);
}

#[test]
fn decode_rejects_bad_length() {
    assert_eq!(decode("T").unwrap_err(), StageError::DecodeFailed);
    assert_eq!(decode("TWF").unwrap_err(), StageError::DecodeFailed);
    assert_eq!(decode("TWFuT").unwrap_err(), StageError::DecodeFailed);
}

#[test]
fn decode_rejects_bad_characters() {
    assert_eq!(decode("TW!u").unwrap_err(), StageError::DecodeFailed);
    assert_eq!(decode("TW+u").unwrap_err(), StageError::DecodeFailed);
    assert_eq!(decode("TW/u").unwrap_err(), StageError::DecodeFailed);
}

#[test]
fn decode_rejects_padding_in_the_middle() {
    assert_eq!(decode("TQ==TWFu").unwrap_err(), StageError::DecodeFailed);
    assert_eq!(decode("TWE=TWFu").unwrap_err(), StageError::DecodeFailed);
    assert_eq!(decode("T=Fu").unwrap_err(), StageError::DecodeFailed);
}

#[test]
fn round_trip_many_lengths() {
    for len in 0..60usize {
        let raw: Vec<u8> = (0..len).map(|i| (i * 37 + len * 11) as u8).collect();
        let text = encode(&raw);
        assert!(is_valid_b64(&text));
        assert_eq!(decode(&text).unwrap(), raw);
    }
}

#[test]
fn validity_checker_matches_decode() {
    assert!(is_valid_b64("TWFu"));
    assert!(is_valid_b64(""));
    assert!(!is_valid_b64("TWF"));
    assert!(!is_valid_b64("@@@@"));
}

#[test]
fn decimal_rendering() {
    assert_eq!(dec_u16(0), "0");
    assert_eq!(dec_u16(7), "7");
    assert_eq!(dec_u16(1080), "1080");
    assert_eq!(dec_u16(8080), "8080");
    assert_eq!(dec_u16(65535), "65535");
}
