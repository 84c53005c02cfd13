use williams_exec::digits::{hex_decode_bytes, parse_dec_u64, parse_hex_u128, parse_hex_u64};
use williams_exec::tx::{decode_address_field, decode_call_data_field, decode_recipient_field};

#[test]
fn hex_u64_basic() {
    assert_eq!(parse_hex_u64(b"0"), Some(0));
    assert_eq!(parse_hex_u64(b"ff"), Some(255));
    assert_eq!(parse_hex_u64(b"FF"), Some(255));
    assert_eq!(parse_hex_u64(b"1c9c380"), Some(30_000_000));
    assert_eq!(parse_hex_u64(b"ffffffffffffffff"), Some(u64::MAX));
}

#[test]
fn hex_u64_rejects() {
    assert_eq!(parse_hex_u64(b""), None);
    assert_eq!(parse_hex_u64(b"xyz"), None);
    assert_eq!(parse_hex_u64(b"12g4"), None);
    // one past u64::MAX
    assert_eq!(parse_hex_u64(b"10000000000000000"), None);
}

#[test]
fn hex_u128_wide() {
    assert_eq!(parse_hex_u128(b"10000000000000000"), Some(1u128 << 64));
    assert_eq!(parse_hex_u128(b"ffffffffffffffffffffffffffffffff"), Some(u128::MAX));
    assert_eq!(parse_hex_u128(b"100000000000000000000000000000000"), None);
}

#[test]
fn dec_u64_basic() {
    assert_eq!(parse_dec_u64(b"0"), Some(0));
    assert_eq!(parse_dec_u64(b"17000000"), Some(17_000_000));
    assert_eq!(parse_dec_u64(b"18446744073709551615"), Some(u64::MAX));
    assert_eq!(parse_dec_u64(b"18446744073709551616"), None);
    assert_eq!(parse_dec_u64(b""), None);
    assert_eq!(parse_dec_u64(b"12a"), None);
}

#[test]
fn hex_decode_pairs() {
    assert_eq!(hex_decode_bytes(b"a9059cbb"), Some(vec![0xa9, 0x05, 0x9c, 0xbb]));
    assert_eq!(hex_decode_bytes(b""), Some(vec![]));
    assert_eq!(hex_decode_bytes(b"abc"), None);
    assert_eq!(hex_decode_bytes(b"zz"), None);
    assert_eq!(hex_decode_bytes(b"00FFa0"), Some(vec![0x00, 0xff, 0xa0]));
}

#[test]
fn address_field_decodes() {
    let hex = b"0x00112233445566778899aabbccddeeff00112233";
    let addr = decode_address_field(Some(hex));
    assert_eq!(addr.len(), 20);
    assert_eq!(addr[0], 0x00);
    assert_eq!(addr[1], 0x11);
    assert_eq!(addr[19], 0x33);
}

#[test]
fn address_field_defaults_to_zero() {
    assert_eq!(decode_address_field(None), vec![0u8; 20]);
    // wrong length
    assert_eq!(decode_address_field(Some(b"0x1234")), vec![0u8; 20]);
    // malformed digits
    assert_eq!(
        decode_address_field(Some(b"0xzz112233445566778899aabbccddeeff00112233")),
        vec![0u8; 20]
    );
}

#[test]
fn recipient_field_creation_shapes() {
    assert_eq!(decode_recipient_field(None), None);
    assert_eq!(decode_recipient_field(Some(b"")), None);
    assert_eq!(decode_recipient_field(Some(b"null")), None);
    let r = decode_recipient_field(Some(b"0x00112233445566778899aabbccddeeff00112233"));
    assert!(r.is_some());
    assert_eq!(r.unwrap().len(), 20);
}

#[test]
fn call_data_field_decodes() {
    assert_eq!(decode_call_data_field(None), Vec::<u8>::new());
    assert_eq!(decode_call_data_field(Some(b"0x")), Vec::<u8>::new());
    assert_eq!(decode_call_data_field(Some(b"0xa9059cbb")), vec![0xa9, 0x05, 0x9c, 0xbb]);
    // malformed data degrades to empty, never fails
    assert_eq!(decode_call_data_field(Some(b"0xabc")), Vec::<u8>::new());
}
