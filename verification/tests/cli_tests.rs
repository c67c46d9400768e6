use pqc_vault::cli::{
    bundle_algorithm, bundle_variant, check_new_passphrase, check_passphrase, inspect_bundle, level_num, names_dsa,
    names_kem, parse_level, pub_file_name,
};
use pqc_vault::SecurityLevel;

#[test]
fn level_numbers_parse() {
    assert_eq!(parse_level(1), Ok(SecurityLevel::Level1));
    assert_eq!(parse_level(3), Ok(SecurityLevel::Level3));
    assert_eq!(parse_level(5), Ok(SecurityLevel::Level5));
    assert_eq!(
        parse_level(4),
        Err("Invalid security level: 4. Must be 1, 3, or 5.".to_string())
    );
    assert_eq!(
        parse_level(200),
        Err("Invalid security level: 200. Must be 1, 3, or 5.".to_string())
    );
}

#[test]
fn level_numbers_roundtrip() {
    for level in [SecurityLevel::Level1, SecurityLevel::Level3, SecurityLevel::Level5] {
        assert_eq!(parse_level(level_num(level)), Ok(level));
    }
}

#[test]
fn public_key_file_name() {
    assert_eq!(pub_file_name("alice.key"), "alice.key.pub");
    assert_eq!(pub_file_name(""), ".pub");
}

#[test]
fn passphrase_checks() {
    assert_eq!(check_passphrase(""), Err("Passphrase cannot be empty".to_string()));
    assert_eq!(check_passphrase("x"), Ok(()));
    assert_eq!(check_new_passphrase("", ""), Err("Passphrase cannot be empty".to_string()));
    assert_eq!(check_new_passphrase("a", "b"), Err("Passphrases do not match".to_string()));
    assert_eq!(check_new_passphrase("same", "same"), Ok(()));
}

#[test]
fn key_file_kinds() {
    assert!(names_kem("-----BEGIN ML-KEM PUBLIC KEY-----"));
    assert!(!names_kem("-----BEGIN ML-DSA PUBLIC KEY-----"));
    assert!(names_dsa("xx ML-DSA yy"));
    assert!(!names_dsa(""));
}

#[test]
fn bundle_descriptions() {
    assert_eq!(bundle_algorithm("kem"), "ML-KEM (Kyber)");
    assert_eq!(bundle_algorithm("dsa"), "ML-DSA (Dilithium)");
    assert_eq!(bundle_algorithm("other"), "Unknown");
    assert_eq!(bundle_variant("kem", 1), "Kyber512  (~AES-128)");
    assert_eq!(bundle_variant("kem", 5), "Kyber1024 (~AES-256)");
    assert_eq!(bundle_variant("dsa", 3), "Dilithium3 (~AES-192)");
    assert_eq!(bundle_variant("dsa", 2), "Unknown");
    assert_eq!(bundle_variant("x", 3), "Unknown");
}

#[test]
fn inspect_reads_kind_and_level() {
    assert_eq!(
        inspect_bundle(r#"{"version":1,"kind":"kem","level":3,"salt":"","nonce":"","ciphertext":""}"#),
        Ok(("ML-KEM (Kyber)", "Kyber768  (~AES-192)", 3))
    );
    assert_eq!(
        inspect_bundle(r#"{"kind":"dsa","level":5}"#),
        Ok(("ML-DSA (Dilithium)", "Dilithium5 (~AES-256)", 5))
    );
    assert_eq!(inspect_bundle(r#"{"kind":7}"#), Ok(("Unknown", "Unknown", 0)));
    assert_eq!(inspect_bundle("{}"), Ok(("Unknown", "Unknown", 0)));
    assert!(inspect_bundle("not json").is_err());
}
