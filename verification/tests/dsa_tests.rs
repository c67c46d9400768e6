use pqc_vault::dsa::{DsaKeyPair, DsaPublicKey};
use pqc_vault::secret::SecretBytes;
use pqc_vault::{PqcError, SecurityLevel};

// ── Output-size validation — FIPS 204 ──

#[test]
fn fips204_dilithium2_output_sizes() {
    let kp = DsaKeyPair::generate(SecurityLevel::Level1).unwrap();
    let pk = kp.public_key();
    let sig = kp.sign(b"size validation test").unwrap();
    assert_eq!(pk.as_bytes().len(), 1312, "Dilithium2 public key: 1312 bytes (FIPS 204 §7.1)");
    assert_eq!(sig.len(), 2420, "Dilithium2 signature: 2420 bytes (FIPS 204 §7.2)");
}

#[test]
fn fips204_dilithium3_output_sizes() {
    let kp = DsaKeyPair::generate(SecurityLevel::Level3).unwrap();
    let pk = kp.public_key();
    let sig = kp.sign(b"size validation test").unwrap();
    assert_eq!(pk.as_bytes().len(), 1952, "Dilithium3 public key: 1952 bytes (FIPS 204 §7.1)");
    assert_eq!(sig.len(), 3293, "Dilithium3 signature: 3293 bytes (FIPS 204 §7.2)");
}

#[test]
fn fips204_dilithium5_output_sizes() {
    let kp = DsaKeyPair::generate(SecurityLevel::Level5).unwrap();
    let pk = kp.public_key();
    let sig = kp.sign(b"size validation test").unwrap();
    assert_eq!(pk.as_bytes().len(), 2592, "Dilithium5 public key: 2592 bytes (FIPS 204 §7.1)");
    assert_eq!(sig.len(), 4595, "Dilithium5 signature: 4595 bytes (FIPS 204 §7.2)");
}

#[test]
fn signature_not_all_zeros() {
    let kp = DsaKeyPair::generate(SecurityLevel::Level3).unwrap();
    let sig = kp.sign(b"non-zero validation").unwrap();
    assert!(sig.as_slice().iter().any(|&b| b != 0), "Signature must not be all zeros");
}

#[test]
fn different_messages_produce_different_signatures() {
    let kp = DsaKeyPair::generate(SecurityLevel::Level3).unwrap();
    let sig1 = kp.sign(b"message one").unwrap();
    let sig2 = kp.sign(b"message two").unwrap();
    assert_ne!(
        sig1.as_slice(),
        sig2.as_slice(),
        "Different messages must produce different signatures"
    );
}

// ── Round trips ──

fn roundtrip(level: SecurityLevel) {
    let kp = DsaKeyPair::generate(level).unwrap();
    let msg = b"Authorize transfer: $1,000,000";
    let sig = kp.sign(msg).unwrap();
    kp.verify(msg, sig.as_slice()).unwrap();
}

#[test]
fn dsa_test_level1() {
    roundtrip(SecurityLevel::Level1);
}

#[test]
fn dsa_test_level3() {
    roundtrip(SecurityLevel::Level3);
}

#[test]
fn dsa_test_level5() {
    roundtrip(SecurityLevel::Level5);
}

#[test]
fn test_tampered_message_rejected() {
    let kp = DsaKeyPair::generate(SecurityLevel::Level3).unwrap();
    let sig = kp.sign(b"original message").unwrap();
    assert!(
        kp.verify(b"tampered message", sig.as_slice()).is_err(),
        "Tampered message must not verify"
    );
}

#[test]
fn test_wrong_key_rejected() {
    let kp1 = DsaKeyPair::generate(SecurityLevel::Level3).unwrap();
    let kp2 = DsaKeyPair::generate(SecurityLevel::Level3).unwrap();
    let sig = kp1.sign(b"message").unwrap();
    assert!(
        kp2.verify(b"message", sig.as_slice()).is_err(),
        "Wrong key must not verify signature"
    );
}

#[test]
fn test_empty_message() {
    let kp = DsaKeyPair::generate(SecurityLevel::Level3).unwrap();
    let sig = kp.sign(b"").unwrap();
    kp.verify(b"", sig.as_slice()).unwrap();
}

#[test]
fn test_large_message() {
    let kp = DsaKeyPair::generate(SecurityLevel::Level3).unwrap();
    let msg = vec![0xABu8; 1_000_000];
    let sig = kp.sign(&msg).unwrap();
    kp.verify(&msg, sig.as_slice()).unwrap();
}

#[test]
fn test_verify_with_typed_key() {
    let kp = DsaKeyPair::generate(SecurityLevel::Level3).unwrap();
    let pk = kp.public_key();
    let msg = b"verify with typed public key";
    let sig = kp.sign(msg).unwrap();
    DsaKeyPair::verify_with_typed_key(&pk, msg, sig.as_slice()).unwrap();
}

#[test]
fn test_signature_zeroizes_on_drop() {
    let kp = DsaKeyPair::generate(SecurityLevel::Level3).unwrap();
    let sig: SecretBytes = kp.sign(b"zeroize proof").unwrap();
    drop(sig); // wiped here — enforced by type
}

// ── Errors and exact values ──

#[test]
fn dsa_overlong_signature_is_invalid() {
    let kp = DsaKeyPair::generate(SecurityLevel::Level1).unwrap();
    let r = kp.verify(b"m", &[1u8; 2421]);
    assert_eq!(
        r.unwrap_err(),
        PqcError::InvalidSignature("Invalid Dilithium2 signature".to_string())
    );
}

#[test]
fn dsa_short_signature_fails_verification() {
    let kp = DsaKeyPair::generate(SecurityLevel::Level5).unwrap();
    let r = DsaKeyPair::verify_with_typed_key(&kp.public_key(), b"m", &[1u8; 100]);
    assert_eq!(r.unwrap_err(), PqcError::VerificationFailed);
}

#[test]
fn dsa_public_key_from_validated_checks_length() {
    let e = DsaPublicKey::from_validated(SecurityLevel::Level3, vec![0u8; 10]).err().unwrap();
    assert_eq!(e, PqcError::InvalidKey("Invalid Dilithium3 public key".to_string()));
}

#[test]
fn dsa_key_sizes_text() {
    let kp = DsaKeyPair::generate(SecurityLevel::Level5).unwrap();
    let s = kp.key_sizes();
    assert_eq!((s.public_key, s.private_key, s.signature), (2592, 4864, 4595));
    assert_eq!(s.to_text(), "PK: 2592B | SK: 4864B | Sig: 4595B");
    assert_eq!(kp.security_level(), SecurityLevel::Level5);
}

#[test]
fn dsa_signing_is_deterministic() {
    let kp = DsaKeyPair::generate(SecurityLevel::Level1).unwrap();
    let a = kp.sign(b"same").unwrap();
    let b = kp.sign(b"same").unwrap();
    assert_eq!(a.as_slice(), b.as_slice());
}

#[test]
fn dsa_from_bytes_checks_lengths() {
    let kp = DsaKeyPair::generate(SecurityLevel::Level1).unwrap();
    let pk = kp.public_key();
    assert!(matches!(
        DsaKeyPair::from_bytes(SecurityLevel::Level1, pk.as_bytes(), &[0u8; 5]),
        Err(PqcError::InvalidKey(_))
    ));
}

#[test]
fn dsa_public_keys_have_their_level_length() {
    for (level, len) in [(SecurityLevel::Level1, 1312), (SecurityLevel::Level3, 1952), (SecurityLevel::Level5, 2592)] {
        let pk = DsaKeyPair::generate(level).unwrap().public_key();
        assert_eq!(pk.as_bytes().len(), len);
        assert_eq!(pk.clone().level(), level);
    }
}
