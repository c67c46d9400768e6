use pqc_vault::kem::{KemKeyPair, KemPublicKey, SharedSecretKey};
use pqc_vault::utils::to_hex;
use pqc_vault::{PqcError, SecurityLevel};

// ── Output-size validation — FIPS 203 ──

#[test]
fn fips203_kyber512_output_sizes() {
    let kp = KemKeyPair::generate(SecurityLevel::Level1).unwrap();
    let pk = kp.public_key();
    assert_eq!(pk.as_bytes().len(), 800, "Kyber512 public key: 800 bytes (FIPS 203 §7.1)");
    let (ct, ss) = KemKeyPair::encapsulate(&pk).unwrap();
    assert_eq!(ct.len(), 768, "Kyber512 ciphertext: 768 bytes (FIPS 203 §7.2)");
    assert_eq!(ss.as_bytes().len(), 32, "Kyber512 shared secret: 32 bytes (FIPS 203 §7.2)");
}

#[test]
fn fips203_kyber768_output_sizes() {
    let kp = KemKeyPair::generate(SecurityLevel::Level3).unwrap();
    let pk = kp.public_key();
    assert_eq!(pk.as_bytes().len(), 1184, "Kyber768 public key: 1184 bytes (FIPS 203 §7.1)");
    let (ct, ss) = KemKeyPair::encapsulate(&pk).unwrap();
    assert_eq!(ct.len(), 1088, "Kyber768 ciphertext: 1088 bytes (FIPS 203 §7.2)");
    assert_eq!(ss.as_bytes().len(), 32, "Kyber768 shared secret: 32 bytes (FIPS 203 §7.2)");
}

#[test]
fn fips203_kyber1024_output_sizes() {
    let kp = KemKeyPair::generate(SecurityLevel::Level5).unwrap();
    let pk = kp.public_key();
    assert_eq!(pk.as_bytes().len(), 1568, "Kyber1024 public key: 1568 bytes (FIPS 203 §7.1)");
    let (ct, ss) = KemKeyPair::encapsulate(&pk).unwrap();
    assert_eq!(ct.len(), 1568, "Kyber1024 ciphertext: 1568 bytes (FIPS 203 §7.2)");
    assert_eq!(ss.as_bytes().len(), 32, "Kyber1024 shared secret: 32 bytes (FIPS 203 §7.2)");
}

#[test]
fn shared_secret_not_all_zeros() {
    let kp = KemKeyPair::generate(SecurityLevel::Level3).unwrap();
    let (ct, ss) = KemKeyPair::encapsulate(&kp.public_key()).unwrap();
    let recovered = kp.decapsulate(&ct).unwrap();
    assert!(ss.as_bytes().iter().any(|&b| b != 0), "Shared secret must not be all zeros");
    assert!(recovered.as_bytes().iter().any(|&b| b != 0), "Recovered secret must not be all zeros");
}

// ── Round trips ──

fn roundtrip(level: SecurityLevel) {
    let alice = KemKeyPair::generate(level).unwrap();
    let (ct, bob_secret) = KemKeyPair::encapsulate(&alice.public_key()).unwrap();
    let alice_secret = alice.decapsulate(&ct).unwrap();
    // SharedSecretKey uses constant-time PartialEq internally — safe to use ==
    assert_eq!(alice_secret, bob_secret, "Secrets must match at {:?}", level);
}

#[test]
fn kem_test_level1() {
    roundtrip(SecurityLevel::Level1);
}

#[test]
fn kem_test_level3() {
    roundtrip(SecurityLevel::Level3);
}

#[test]
fn kem_test_level5() {
    roundtrip(SecurityLevel::Level5);
}

#[test]
fn test_constant_time_eq_is_default() {
    // SharedSecretKey == uses ct_eq internally — no timing side channel
    let kp = KemKeyPair::generate(SecurityLevel::Level3).unwrap();
    let (ct, s1) = KemKeyPair::encapsulate(&kp.public_key()).unwrap();
    let s2 = kp.decapsulate(&ct).unwrap();
    assert_eq!(s1, s2); // This is constant-time. Safe.
}

#[test]
fn kem_test_wrong_key_gives_different_secret() {
    let alice = KemKeyPair::generate(SecurityLevel::Level3).unwrap();
    let eve = KemKeyPair::generate(SecurityLevel::Level3).unwrap();
    let (ct, _) = KemKeyPair::encapsulate(&alice.public_key()).unwrap();
    let alice_s = alice.decapsulate(&ct).unwrap();
    let eve_s = eve.decapsulate(&ct).unwrap();
    assert_ne!(alice_s, eve_s, "Security failure: different keys produced same secret");
}

#[test]
fn test_shared_secret_zeroizes_on_drop() {
    let kp = KemKeyPair::generate(SecurityLevel::Level3).unwrap();
    let (ct, ss) = KemKeyPair::encapsulate(&kp.public_key()).unwrap();
    let _recovered = kp.decapsulate(&ct).unwrap();
    drop(ss); // wiped here
}

// ── Errors and exact values ──

#[test]
fn kem_decapsulate_rejects_wrong_ciphertext_length() {
    let kp = KemKeyPair::generate(SecurityLevel::Level3).unwrap();
    let r: Result<SharedSecretKey, PqcError> = kp.decapsulate(&[0u8; 10]);
    assert_eq!(
        r.unwrap_err(),
        PqcError::InvalidCiphertext("Invalid Kyber768 ciphertext".to_string())
    );
}

#[test]
fn kem_public_key_from_validated_checks_length() {
    let e = KemPublicKey::from_validated(SecurityLevel::Level1, vec![0u8; 799]).err().unwrap();
    assert_eq!(e, PqcError::InvalidKey("Invalid Kyber512 public key".to_string()));
    let k = KemPublicKey::from_validated(SecurityLevel::Level5, vec![7u8; 1568]).unwrap();
    assert_eq!(k.level(), SecurityLevel::Level5);
    assert_eq!(k.as_bytes(), &[7u8; 1568][..]);
}

#[test]
fn kem_encapsulate_to_validated_key() {
    let kp = KemKeyPair::generate(SecurityLevel::Level1).unwrap();
    let pk = KemPublicKey::from_validated(SecurityLevel::Level1, kp.public_key().as_bytes().to_vec()).unwrap();
    assert!(KemKeyPair::encapsulate(&pk).is_ok());
}

#[test]
fn kem_public_key_hex_is_hex_of_bytes() {
    let kp = KemKeyPair::generate(SecurityLevel::Level1).unwrap();
    let pk = kp.public_key();
    assert_eq!(pk.to_hex(), to_hex(pk.as_bytes()));
    assert_eq!(pk.to_hex().len(), 1600);
}

#[test]
fn kem_key_sizes_text() {
    let kp = KemKeyPair::generate(SecurityLevel::Level3).unwrap();
    let s = kp.key_sizes();
    assert_eq!((s.public_key, s.private_key, s.ciphertext, s.shared_secret), (1184, 2400, 1088, 32));
    assert_eq!(s.to_text(), "PK: 1184B | SK: 2400B | CT: 1088B | SS: 32B");
    assert_eq!(kp.security_level(), SecurityLevel::Level3);
}

#[test]
fn kem_from_bytes_checks_lengths() {
    let kp = KemKeyPair::generate(SecurityLevel::Level1).unwrap();
    let pk = kp.public_key();
    let data = kp.export().unwrap();
    assert!(matches!(
        KemKeyPair::from_bytes(SecurityLevel::Level1, &pk.as_bytes()[..10], &[0u8; 1632]),
        Err(PqcError::InvalidKey(_))
    ));
    assert!(matches!(
        KemKeyPair::from_bytes(SecurityLevel::Level1, pk.as_bytes(), &[0u8; 3]),
        Err(PqcError::InvalidKey(_))
    ));
    assert_eq!(data.public_key, pk.as_bytes().to_vec());
}

#[test]
fn kem_different_levels_do_not_mix() {
    let kp = KemKeyPair::generate(SecurityLevel::Level1).unwrap();
    let other = KemKeyPair::generate(SecurityLevel::Level5).unwrap();
    let (ct, _) = KemKeyPair::encapsulate(&kp.public_key()).unwrap();
    assert_eq!(
        other.decapsulate(&ct).unwrap_err(),
        PqcError::InvalidCiphertext("Invalid Kyber1024 ciphertext".to_string())
    );
}

#[test]
fn shared_secret_debug_hides_the_bytes() {
    let kp = KemKeyPair::generate(SecurityLevel::Level1).unwrap();
    let (_, ss) = KemKeyPair::encapsulate(&kp.public_key()).unwrap();
    assert_eq!(format!("{:?}", ss), "SharedSecretKey(SecretBytes { inner: Zeroizing { .. } })");
}

#[test]
fn kem_public_keys_have_their_level_length() {
    for (level, len) in [(SecurityLevel::Level1, 800), (SecurityLevel::Level3, 1184), (SecurityLevel::Level5, 1568)] {
        let pk = KemKeyPair::generate(level).unwrap().public_key();
        assert_eq!(pk.as_bytes().len(), len);
        assert_eq!(pk.clone().as_bytes(), pk.as_bytes());
        assert!(KemKeyPair::encapsulate(&pk).is_ok());
    }
}
