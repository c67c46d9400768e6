use base64::engine::general_purpose::STANDARD as BASE64;
use base64::Engine;
use pqc_vault::dsa::DsaKeyPair;
use pqc_vault::kem::{KemKeyPair, KemPublicKey};
use pqc_vault::pem::{
    dsa_public_key_from_pem, dsa_public_key_to_pem, kem_public_key_from_pem, kem_public_key_to_pem,
    pem_markers_out_of_order,
};
use pqc_vault::{PqcError, SecurityLevel};

#[test]
fn test_kem_pem_roundtrip() {
    for level in [SecurityLevel::Level1, SecurityLevel::Level3, SecurityLevel::Level5] {
        let kp = KemKeyPair::generate(level).unwrap();
        let pk = kp.public_key();
        let pem = kem_public_key_to_pem(&pk);
        assert!(pem.contains("-----BEGIN ML-KEM PUBLIC KEY-----"));
        assert!(pem.contains("-----END ML-KEM PUBLIC KEY-----"));
        let restored = kem_public_key_from_pem(&pem).unwrap();
        assert_eq!(pk.as_bytes(), restored.as_bytes());
        assert_eq!(pk.level(), restored.level());
    }
}

#[test]
fn test_dsa_pem_roundtrip() {
    for level in [SecurityLevel::Level1, SecurityLevel::Level3, SecurityLevel::Level5] {
        let kp = DsaKeyPair::generate(level).unwrap();
        let pk = kp.public_key();
        let pem = dsa_public_key_to_pem(&pk);
        assert!(pem.contains("-----BEGIN ML-DSA PUBLIC KEY-----"));
        assert!(pem.contains("-----END ML-DSA PUBLIC KEY-----"));
        let restored = dsa_public_key_from_pem(&pem).unwrap();
        assert_eq!(pk.as_bytes(), restored.as_bytes());
        assert_eq!(pk.level(), restored.level());
    }
}

#[test]
fn test_pem_contains_variant() {
    let kp = KemKeyPair::generate(SecurityLevel::Level3).unwrap();
    let pem = kem_public_key_to_pem(&kp.public_key());
    assert!(pem.contains("Kyber768"), "PEM header must include variant name");
}

#[test]
fn test_pem_verify_with_restored_key() {
    let kp = DsaKeyPair::generate(SecurityLevel::Level3).unwrap();
    let pem = dsa_public_key_to_pem(&kp.public_key());
    let msg = b"verify after PEM round-trip";
    let sig = kp.sign(msg).unwrap();
    let pk = dsa_public_key_from_pem(&pem).unwrap();
    DsaKeyPair::verify_with_typed_key(&pk, msg, sig.as_slice()).unwrap();
}

#[test]
fn test_wrong_label_rejected() {
    let kp = KemKeyPair::generate(SecurityLevel::Level3).unwrap();
    let pem = kem_public_key_to_pem(&kp.public_key());
    assert!(dsa_public_key_from_pem(&pem).is_err());
}

#[test]
fn test_corrupted_bytes_rejected() {
    let kp = KemKeyPair::generate(SecurityLevel::Level3).unwrap();
    let pk = kp.public_key();
    let pem = kem_public_key_to_pem(&pk);
    // Corrupt the base64 body
    let corrupted = pem.replace(&BASE64.encode(&pk.as_bytes()[..10]), "AAAAAAAAAAAAAAAA");
    // May or may not be valid base64, but if decoded will have wrong length
    assert!(!pem_markers_out_of_order(&corrupted, true));
    let _ = kem_public_key_from_pem(&corrupted); // may error — that's correct
}

// ── Exact layout and errors ──

#[test]
fn pem_exact_layout() {
    let pk = KemPublicKey::from_validated(SecurityLevel::Level1, vec![0u8; 800]).unwrap();
    let pem = kem_public_key_to_pem(&pk);
    let body = format!("{}=", "A".repeat(1067));
    let mut wrapped = Vec::new();
    let mut i = 0;
    while i < body.len() {
        let end = std::cmp::min(i + 64, body.len());
        wrapped.push(&body[i..end]);
        i = end;
    }
    let expected = format!(
        "-----BEGIN ML-KEM PUBLIC KEY-----\nAlgorithm: ML-KEM; Level: Level1; Variant: Kyber512\n{}\n-----END ML-KEM PUBLIC KEY-----\n",
        wrapped.join("\n")
    );
    assert_eq!(pem, expected);
}

#[test]
fn pem_missing_header_and_footer() {
    assert_eq!(
        kem_public_key_from_pem("nothing here").err().unwrap(),
        PqcError::Other("Missing PEM header: -----BEGIN ML-KEM PUBLIC KEY-----".to_string())
    );
    assert_eq!(
        kem_public_key_from_pem("-----BEGIN ML-KEM PUBLIC KEY-----\nabc").err().unwrap(),
        PqcError::Other("Missing PEM footer: -----END ML-KEM PUBLIC KEY-----".to_string())
    );
}

#[test]
fn pem_empty_body_and_unknown_level() {
    let empty = "-----BEGIN ML-DSA PUBLIC KEY-----\n  \n\n-----END ML-DSA PUBLIC KEY-----\n";
    assert_eq!(
        dsa_public_key_from_pem(empty).err().unwrap(),
        PqcError::Other("Empty PEM body".to_string())
    );
    let unknown = "-----BEGIN ML-DSA PUBLIC KEY-----\n  Level7  \nAAAA\n-----END ML-DSA PUBLIC KEY-----\n";
    assert_eq!(
        dsa_public_key_from_pem(unknown).err().unwrap(),
        PqcError::Other("Cannot parse security level from PEM header: Level7".to_string())
    );
}

#[test]
fn pem_bad_base64_and_wrong_length() {
    let bad = "-----BEGIN ML-KEM PUBLIC KEY-----\nLevel3\n!!!!\n-----END ML-KEM PUBLIC KEY-----\n";
    assert_eq!(
        kem_public_key_from_pem(bad).err().unwrap(),
        PqcError::Other("Invalid base64 in PEM body".to_string())
    );
    let short = "-----BEGIN ML-KEM PUBLIC KEY-----\nLevel3\nAAAA\n-----END ML-KEM PUBLIC KEY-----\n";
    assert_eq!(
        kem_public_key_from_pem(short).err().unwrap(),
        PqcError::InvalidKey("Invalid Kyber768 public key".to_string())
    );
}

#[test]
fn pem_markers_order_is_detected() {
    let swapped = "-----END ML-KEM PUBLIC KEY-----\n-----BEGIN ML-KEM PUBLIC KEY-----\n";
    assert!(pem_markers_out_of_order(swapped, true));
    assert!(!pem_markers_out_of_order(swapped, false));
}

#[test]
fn pem_of_one_kind_refused_as_the_other() {
    let dsa = DsaKeyPair::generate(SecurityLevel::Level1).unwrap();
    let pem = dsa_public_key_to_pem(&dsa.public_key());
    assert_eq!(
        kem_public_key_from_pem(&pem).err().unwrap(),
        PqcError::Other("Missing PEM header: -----BEGIN ML-KEM PUBLIC KEY-----".to_string())
    );
    let kem = KemKeyPair::generate(SecurityLevel::Level5).unwrap();
    let pem = kem_public_key_to_pem(&kem.public_key());
    assert_eq!(
        dsa_public_key_from_pem(&pem).err().unwrap(),
        PqcError::Other("Missing PEM header: -----BEGIN ML-DSA PUBLIC KEY-----".to_string())
    );
}
