use casper_x402::message::{build_message, MESSAGE_LEN};
use casper_x402::text::{decimal_string, hex_decode, hex_encode, parse_u16, parse_u64};
use casper_x402::uint::U256;

#[test]
fn hex_encode_is_lowercase_two_digits_per_byte() {
    assert_eq!(hex_encode(&[0x00, 0x0f, 0xab, 0xff]), "000fabff");
    assert_eq!(hex_encode(&[]), "");
}

#[test]
fn hex_decode_reads_either_case() {
    assert_eq!(hex_decode("000fABff").unwrap(), vec![0x00, 0x0f, 0xab, 0xff]);
    assert_eq!(hex_decode("").unwrap(), Vec::<u8>::new());
}

#[test]
fn hex_decode_refuses_odd_length_and_bad_digits() {
    assert!(hex_decode("abc").is_err());
    assert!(hex_decode("zz").is_err());
}

#[test]
fn hex_round_trip() {
    let data: Vec<u8> = (0u8..=255).collect();
    assert_eq!(hex_decode(&hex_encode(&data)).unwrap(), data);
}

#[test]
fn parse_u64_reads_decimal_numbers() {
    assert_eq!(parse_u64("0"), Some(0));
    assert_eq!(parse_u64("1000000"), Some(1_000_000));
    assert_eq!(parse_u64("+42"), Some(42));
    assert_eq!(parse_u64("007"), Some(7));
    assert_eq!(parse_u64("18446744073709551615"), Some(u64::MAX));
}

#[test]
fn parse_u64_refuses_malformed_or_too_large() {
    assert_eq!(parse_u64(""), None);
    assert_eq!(parse_u64("+"), None);
    assert_eq!(parse_u64("-1"), None);
    assert_eq!(parse_u64("12a"), None);
    assert_eq!(parse_u64(" 1"), None);
    assert_eq!(parse_u64("18446744073709551616"), None);
    assert_eq!(parse_u64("99999999999999999999"), None);
}

#[test]
fn parse_u16_bounds() {
    assert_eq!(parse_u16("65535"), Some(65535));
    assert_eq!(parse_u16("65536"), None);
    assert_eq!(parse_u16("3002"), Some(3002));
}

#[test]
fn parse_agrees_with_std() {
    for s in ["0", "1", "+5", "00", "65535", "65536", "abc", "", "+", "++1", "18446744073709551615"] {
        assert_eq!(parse_u64(s), s.parse::<u64>().ok(), "{}", s);
        assert_eq!(parse_u16(s), s.parse::<u16>().ok(), "{}", s);
    }
}

#[test]
fn decimal_string_matches_to_string() {
    for n in [0u64, 7, 10, 99, 100, 1_000_000, u64::MAX] {
        assert_eq!(decimal_string(n), n.to_string());
    }
}

#[test]
fn decimal_round_trip() {
    for n in [0u64, 9, 10, 12345, 1_000_000, u64::MAX] {
        assert_eq!(parse_u64(&decimal_string(n)), Some(n));
    }
    assert_eq!(parse_u16(&decimal_string(65535)), Some(65535));
}

#[test]
fn u256_big_endian_round_trip() {
    let a = U256::from_u64(0x0102_0304_0506_0708);
    let b = a.to_be_bytes();
    let mut expected = [0u8; 32];
    expected[24..].copy_from_slice(&0x0102_0304_0506_0708u64.to_be_bytes());
    assert_eq!(b, expected);
    assert_eq!(U256::from_be_bytes(&b), a);
    let m = U256::max_value();
    assert_eq!(m.to_be_bytes(), [0xff; 32]);
    assert_eq!(U256::from_be_bytes(&m.to_be_bytes()), m);
}

#[test]
fn u256_from_be_bytes_reads_high_words() {
    let mut b = [0u8; 32];
    b[0] = 1;
    let v = U256::from_be_bytes(&b);
    assert_eq!(v, U256 { w0: 0, w1: 0, w2: 0, w3: 1 << 56 });
}

#[test]
fn u256_checked_arithmetic() {
    let a = U256::from_u64(u64::MAX);
    let one = U256::from_u64(1);
    let s = a.checked_add(&one).unwrap();
    assert_eq!(s, U256 { w0: 0, w1: 1, w2: 0, w3: 0 });
    assert_eq!(s.checked_sub(&one).unwrap(), a);
    assert_eq!(U256::max_value().checked_add(&one), None);
    assert_eq!(one.checked_sub(&a), None);
    assert!(one.lt(&a));
    assert!(!a.lt(&one));
    assert!(!a.lt(&a));
    assert!(U256::zero().is_zero());
    assert!(!one.is_zero());
    assert!(a.eq(&U256::from_u64(u64::MAX)));
}

#[test]
fn build_message_layout() {
    let from = [0x11u8; 32];
    let to = [0x22u8; 32];
    let amount = U256::from_u64(1000);
    let nonce: Vec<u8> = (1u8..=32).collect();
    let msg = build_message(&from, &to, &amount, 5, 0x0102, &nonce);
    assert_eq!(msg.len(), MESSAGE_LEN);
    assert_eq!(msg.len(), 159);
    assert_eq!(&msg[..15], b"casper-x402-v2:");
    assert_eq!(&msg[15..47], &from);
    assert_eq!(&msg[47..79], &to);
    let mut amount_le = [0u8; 32];
    amount_le[0] = 0xe8;
    amount_le[1] = 0x03;
    assert_eq!(&msg[79..111], &amount_le);
    assert_eq!(&msg[111..119], &5u64.to_le_bytes());
    assert_eq!(&msg[119..127], &0x0102u64.to_le_bytes());
    assert_eq!(&msg[127..159], nonce.as_slice());
}

#[test]
fn build_message_pads_short_nonce_and_cuts_long_one() {
    let amount = U256::zero();
    let short = build_message(&[0; 32], &[0; 32], &amount, 0, 0, &[9, 8, 7]);
    let mut padded = [0u8; 32];
    padded[..3].copy_from_slice(&[9, 8, 7]);
    assert_eq!(&short[127..], &padded);
    let long: Vec<u8> = (0u8..40).collect();
    let cut = build_message(&[0; 32], &[0; 32], &amount, 0, 0, &long);
    assert_eq!(cut.len(), 159);
    assert_eq!(&cut[127..], &long[..32]);
}

#[test]
fn different_transfers_have_different_messages() {
    let nonce = [1u8; 32];
    let a = build_message(&[1; 32], &[2; 32], &U256::from_u64(100), 0, 10, &nonce);
    let b = build_message(&[1; 32], &[2; 32], &U256::from_u64(101), 0, 10, &nonce);
    let c = build_message(&[1; 32], &[3; 32], &U256::from_u64(100), 0, 10, &nonce);
    let d = build_message(&[1; 32], &[2; 32], &U256::from_u64(100), 0, 11, &nonce);
    assert_ne!(a, b);
    assert_ne!(a, c);
    assert_ne!(a, d);
}
