use pqc_vault::utils::{ct_eq, from_hex, to_hex};
use pqc_vault::PqcError;

#[test]
fn test_hex_roundtrip() {
    let data = b"pqc_vault_test_data_12345";
    assert_eq!(from_hex(&to_hex(data)).unwrap(), data.to_vec());
}

#[test]
fn test_hex_empty() {
    assert_eq!(to_hex(b""), "");
    assert_eq!(from_hex("").unwrap(), b"");
}

#[test]
fn test_ct_eq_same() {
    assert!(ct_eq(b"same_secret_value", b"same_secret_value"));
}

#[test]
fn test_ct_eq_different() {
    assert!(!ct_eq(b"secret_a_value__", b"secret_b_value__"));
}

#[test]
fn test_ct_eq_different_lengths() {
    assert!(!ct_eq(b"short", b"longer string here"));
}

#[test]
fn test_ct_eq_empty() {
    assert!(ct_eq(b"", b""));
}

#[test]
fn test_ct_eq_single_bit_difference() {
    // Ensure a single-bit flip is detected
    let a = [0u8; 32];
    let mut b = [0u8; 32];
    b[15] = 1;
    assert!(!ct_eq(&a, &b));
}

#[test]
fn hex_encoding_is_lowercase_high_nibble_first() {
    assert_eq!(to_hex(&[0x00, 0x0f, 0xa5, 0xff]), "000fa5ff");
}

#[test]
fn hex_decoding_accepts_both_cases() {
    assert_eq!(from_hex("DEADbeef").unwrap(), vec![0xde, 0xad, 0xbe, 0xef]);
}

#[test]
fn hex_decoding_rejects_odd_length() {
    assert!(matches!(from_hex("abc"), Err(PqcError::HexDecodeError(_))));
}

#[test]
fn hex_decoding_rejects_non_hex_character() {
    assert!(matches!(from_hex("zz"), Err(PqcError::HexDecodeError(_))));
}
