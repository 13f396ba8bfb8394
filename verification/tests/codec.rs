use powhttp_sdk::codec::{
    decode_base64_bytes, decode_body, decode_hex_list, encode_base64_bytes, encode_hex_list,
    HexError,
};

#[test]
fn hex_list_encodes_lowercase() {
    let out = encode_hex_list(&vec![b"foobar".to_vec(), vec![0x0f, 0xab], vec![]]);
    assert_eq!(out, vec!["666f6f626172", "0fab", ""]);
}

#[test]
fn hex_list_decodes_either_case() {
    let out = decode_hex_list(&vec!["0FaB".to_string(), "".to_string()]).unwrap();
    assert_eq!(out, vec![vec![0x0f, 0xab], vec![]]);
}

#[test]
fn hex_list_odd_length() {
    assert_eq!(decode_hex_list(&vec!["123".to_string()]), Err(HexError::OddLength));
}

#[test]
fn hex_list_invalid_character_reports_byte_index() {
    assert_eq!(
        decode_hex_list(&vec!["66ag".to_string()]),
        Err(HexError::InvalidHexCharacter { c: 'g', index: 3 })
    );
}

#[test]
fn hex_list_first_failing_string_wins() {
    let input = vec!["00".to_string(), "0".to_string(), "zz".to_string()];
    assert_eq!(decode_hex_list(&input), Err(HexError::OddLength));
}

#[test]
fn law_hex_list_round_trip_concrete() {
    let data = vec![vec![0u8, 1, 127, 128, 255], b"kiwi".to_vec(), vec![]];
    assert_eq!(decode_hex_list(&encode_hex_list(&data)).unwrap(), data);
}

#[test]
fn base64_encode_and_decode() {
    assert_eq!(encode_base64_bytes(b"hello"), "aGVsbG8=");
    assert_eq!(decode_base64_bytes("aGVsbG8=").unwrap(), b"hello".to_vec());
    assert!(decode_base64_bytes("not base64!").is_err());
}

#[test]
fn decode_body_cases() {
    assert!(matches!(decode_body(None), Ok(None)));
    assert_eq!(decode_body(Some("AAEC".to_string())).unwrap(), Some(vec![0, 1, 2]));
    assert!(decode_body(Some("@@".to_string())).is_err());
}

#[test]
fn base64_encoding_pads_each_final_group() {
    assert_eq!(encode_base64_bytes(b""), "");
    assert_eq!(encode_base64_bytes(b"h"), "aA==");
    assert_eq!(encode_base64_bytes(b"hi"), "aGk=");
    assert_eq!(encode_base64_bytes(b"hi!"), "aGkh");
    assert_eq!(encode_base64_bytes(&[0xfb, 0xff]), "+/8=");
}

#[test]
fn base64_decoding_accepts_exactly_canonical_encodings() {
    assert_eq!(decode_body(Some("aGk=".to_string())).unwrap(), Some(vec![0x68, 0x69]));
    assert_eq!(decode_base64_bytes("").unwrap(), Vec::<u8>::new());
    // missing padding
    assert!(decode_base64_bytes("aGk").is_err());
    // non-zero trailing bits
    assert!(decode_base64_bytes("aGl=").is_err());
    // padding in the middle
    assert!(decode_base64_bytes("aG==aGk=").is_err());
    for data in [&b""[..], b"h", b"hi", b"hi!", b"\x00\xff\x10\x80"] {
        let text = encode_base64_bytes(data);
        assert_eq!(decode_base64_bytes(&text).unwrap(), data.to_vec());
    }
}
