use pqc_vault::hybrid::{HybridCiphertext, HybridKeyPair};
use pqc_vault::{PqcError, SecurityLevel};

fn roundtrip(level: SecurityLevel) {
    let alice = HybridKeyPair::generate(level).unwrap();
    let (ct, bob) = HybridKeyPair::encapsulate(&alice.public_key()).unwrap();
    let alice_s = alice.decapsulate(&ct).unwrap();
    assert_eq!(alice_s.as_slice(), bob.as_slice());
}

#[test]
fn test_hybrid_level1() {
    roundtrip(SecurityLevel::Level1);
}

#[test]
fn test_hybrid_level3() {
    roundtrip(SecurityLevel::Level3);
}

#[test]
fn test_hybrid_level5() {
    roundtrip(SecurityLevel::Level5);
}

#[test]
fn test_ciphertext_hex_roundtrip() {
    // Encapsulate, serialise the ciphertext to hex, deserialise, then
    // decapsulate — and assert the recovered secret matches what Bob got.
    let alice = HybridKeyPair::generate(SecurityLevel::Level3).unwrap();
    let (ct_original, bob_secret) = HybridKeyPair::encapsulate(&alice.public_key()).unwrap();

    // Serialise to hex (simulates network/file transmission)
    let hex = ct_original.to_hex();
    assert!(hex.len() > 64, "hex must include X25519 (64 chars) + Kyber components");

    // Deserialise
    let ct_restored = HybridCiphertext::from_hex(&hex).unwrap();

    // Decapsulate from the restored ciphertext — must recover Bob's secret
    let alice_secret = alice.decapsulate(&ct_restored).unwrap();
    assert_eq!(
        alice_secret.as_slice(),
        bob_secret.as_slice(),
        "Secret recovered from deserialised ciphertext must match original"
    );
}

#[test]
fn test_ciphertext_cross_process_simulation() {
    // Alice generates keys, Bob encapsulates elsewhere, sends the ciphertext
    // as hex text, Alice decapsulates.
    let alice = HybridKeyPair::generate(SecurityLevel::Level3).unwrap();
    let alice_pub = alice.public_key();

    let (ct_bob, bob_secret) = HybridKeyPair::encapsulate(&alice_pub).unwrap();
    let ct_hex = ct_bob.to_hex();

    let ct_alice = HybridCiphertext::from_hex(&ct_hex).unwrap();
    let alice_secret = alice.decapsulate(&ct_alice).unwrap();

    assert_eq!(
        alice_secret.as_slice(),
        bob_secret.as_slice(),
        "Cross-process hybrid exchange must produce matching secrets"
    );
}

#[test]
fn test_hybrid_secret_is_32_bytes() {
    let alice = HybridKeyPair::generate(SecurityLevel::Level3).unwrap();
    let (ct, secret) = HybridKeyPair::encapsulate(&alice.public_key()).unwrap();
    assert_eq!(secret.len(), 32);
    assert_eq!(alice.decapsulate(&ct).unwrap().len(), 32);
}

#[test]
fn hybrid_test_wrong_key_gives_different_secret() {
    let alice = HybridKeyPair::generate(SecurityLevel::Level3).unwrap();
    let eve = HybridKeyPair::generate(SecurityLevel::Level3).unwrap();
    let (ct, _) = HybridKeyPair::encapsulate(&alice.public_key()).unwrap();
    let alice_s = alice.decapsulate(&ct).unwrap();
    let eve_s = eve
        .decapsulate(&ct)
        .map(|s| s.as_slice().to_vec())
        .unwrap_or(vec![0u8; 32]);
    assert_ne!(alice_s.as_slice(), eve_s.as_slice());
}

#[test]
fn test_two_encapsulations_give_different_secrets() {
    let alice = HybridKeyPair::generate(SecurityLevel::Level3).unwrap();
    let (_, s1) = HybridKeyPair::encapsulate(&alice.public_key()).unwrap();
    let (_, s2) = HybridKeyPair::encapsulate(&alice.public_key()).unwrap();
    assert_ne!(s1.as_slice(), s2.as_slice());
}

#[test]
fn test_public_key_no_reconstruction() {
    let alice = HybridKeyPair::generate(SecurityLevel::Level3).unwrap();
    let pk1 = alice.public_key();
    let pk2 = alice.public_key();
    assert_eq!(pk1.x25519_bytes(), pk2.x25519_bytes());
}

#[test]
fn test_invalid_hex_rejected() {
    assert!(HybridCiphertext::from_hex("not-valid-hex").is_err());
    assert!(HybridCiphertext::from_hex("deadbeef").is_err()); // too short
}

// ── Errors and exact values ──

#[test]
fn hybrid_from_hex_error_texts() {
    assert_eq!(
        HybridCiphertext::from_hex("xyz").err().unwrap(),
        PqcError::InvalidCiphertext("Invalid hex in HybridCiphertext".to_string())
    );
    assert_eq!(
        HybridCiphertext::from_hex(&"ab".repeat(32)).err().unwrap(),
        PqcError::InvalidCiphertext(
            "HybridCiphertext too short — missing Kyber component".to_string()
        )
    );
}

#[test]
fn hybrid_from_hex_trims_and_splits() {
    let text = format!("  {}{}\n", "01".repeat(32), "ff02");
    let ct = HybridCiphertext::from_hex(&text).unwrap();
    assert_eq!(ct.len(), 34);
    assert!(!ct.is_empty());
    assert_eq!(ct.to_hex(), format!("{}{}", "01".repeat(32), "ff02"));
}

#[test]
fn hybrid_ciphertext_hex_layout() {
    let alice = HybridKeyPair::generate(SecurityLevel::Level1).unwrap();
    let (ct, _) = HybridKeyPair::encapsulate(&alice.public_key()).unwrap();
    assert_eq!(ct.len(), 32 + 768);
    assert_eq!(ct.to_hex().len(), 2 * (32 + 768));
}

#[test]
fn hybrid_wrong_level_ciphertext_rejected() {
    let alice = HybridKeyPair::generate(SecurityLevel::Level1).unwrap();
    let bob = HybridKeyPair::generate(SecurityLevel::Level3).unwrap();
    let (ct, _) = HybridKeyPair::encapsulate(&alice.public_key()).unwrap();
    assert_eq!(
        bob.decapsulate(&ct).err().unwrap(),
        PqcError::InvalidCiphertext("Invalid Kyber768 ciphertext".to_string())
    );
}

#[test]
fn hybrid_public_key_parts() {
    let alice = HybridKeyPair::generate(SecurityLevel::Level5).unwrap();
    let pk = alice.public_key();
    assert_eq!(pk.x25519_bytes().len(), 32);
    assert_eq!(pk.kyber_key().level(), SecurityLevel::Level5);
    assert_eq!(pk.kyber_key().as_bytes().len(), 1568);
    assert_eq!(alice.security_level(), SecurityLevel::Level5);
}
