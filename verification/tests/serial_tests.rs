use pqc_vault::dsa::DsaKeyPair;
use pqc_vault::kem::KemKeyPair;
use pqc_vault::serial::{level_to_u8, u8_to_level, EncryptedKeyBundle};
use pqc_vault::{PqcError, SecurityLevel};
use serde_json::Value;

/// A JSON text of the bundle's fields, built here by hand in the field
/// order of the command-line tool's bundle files; the library itself holds
/// no JSON code.
fn to_json(b: &EncryptedKeyBundle) -> String {
    let mut m = serde_json::Map::new();
    m.insert("version".to_string(), Value::from(b.version()));
    m.insert("kind".to_string(), Value::from(b.kind()));
    m.insert("level".to_string(), Value::from(b.level()));
    m.insert("salt".to_string(), Value::from(b.salt()));
    m.insert("nonce".to_string(), Value::from(b.nonce()));
    m.insert("ciphertext".to_string(), Value::from(b.ciphertext()));
    Value::Object(m).to_string()
}

/// A bundle read back from its JSON text.
fn from_json(s: &str) -> Result<EncryptedKeyBundle, String> {
    let v: Value = serde_json::from_str(s).map_err(|e| e.to_string())?;
    let text = |k: &str| v[k].as_str().map(|s| s.to_string()).ok_or(format!("missing {}", k));
    let num = |k: &str| v[k].as_u64().map(|n| n as u8).ok_or(format!("missing {}", k));
    Ok(EncryptedKeyBundle::from_parts(
        num("version")?,
        text("kind")?,
        num("level")?,
        text("salt")?,
        text("nonce")?,
        text("ciphertext")?,
    ))
}

#[test]
fn test_kem_export_import_roundtrip() {
    let original = KemKeyPair::generate(SecurityLevel::Level3).unwrap();
    let orig_pub = original.public_key();
    let data = original.export().unwrap();
    let restored = data.into_keypair().unwrap();
    assert_eq!(orig_pub.as_bytes(), restored.public_key().as_bytes());
    let (ct, bob) = KemKeyPair::encapsulate(&restored.public_key()).unwrap();
    let alice = restored.decapsulate(&ct).unwrap();
    assert_eq!(alice.as_bytes(), bob.as_bytes());
}

#[test]
fn test_dsa_export_import_roundtrip() {
    let original = DsaKeyPair::generate(SecurityLevel::Level3).unwrap();
    let orig_pub = original.public_key();
    let data = original.export().unwrap();
    let restored = data.into_keypair().unwrap();
    let msg = b"serialisation test";
    let sig = restored.sign(msg).unwrap();
    DsaKeyPair::verify_with_typed_key(&orig_pub, msg, sig.as_slice()).unwrap();
}

#[test]
fn test_encrypted_bundle_kem_roundtrip() {
    let kp = KemKeyPair::generate(SecurityLevel::Level3).unwrap();
    let orig_pub = kp.public_key();
    let bundle = EncryptedKeyBundle::seal_kem(&kp, b"test-passphrase-123").unwrap();
    assert_eq!(bundle.version(), 1);
    assert_eq!(bundle.kind(), "kem");
    let json = to_json(&bundle);
    let restored = from_json(&json)
        .unwrap()
        .unseal_kem(b"test-passphrase-123")
        .unwrap();
    assert_eq!(orig_pub.as_bytes(), restored.public_key().as_bytes());
}

#[test]
fn test_encrypted_bundle_dsa_roundtrip() {
    let kp = DsaKeyPair::generate(SecurityLevel::Level3).unwrap();
    let msg = b"encrypted dsa test";
    let sig = kp.sign(msg).unwrap();
    let bundle = EncryptedKeyBundle::seal_dsa(&kp, b"test-passphrase-456").unwrap();
    let restored = from_json(&to_json(&bundle))
        .unwrap()
        .unseal_dsa(b"test-passphrase-456")
        .unwrap();
    DsaKeyPair::verify_with_typed_key(&restored.public_key(), msg, sig.as_slice()).unwrap();
}

#[test]
fn test_wrong_passphrase_fails() {
    let kp = KemKeyPair::generate(SecurityLevel::Level3).unwrap();
    let bundle = EncryptedKeyBundle::seal_kem(&kp, b"correct").unwrap();
    assert!(from_json(&to_json(&bundle)).unwrap().unseal_kem(b"wrong").is_err());
}

fn serialise_level(level: SecurityLevel) {
    let kp = KemKeyPair::generate(level).unwrap();
    let restored = from_json(&to_json(&EncryptedKeyBundle::seal_kem(&kp, b"level-test").unwrap()))
        .unwrap()
        .unseal_kem(b"level-test")
        .unwrap();
    assert_eq!(kp.public_key().as_bytes(), restored.public_key().as_bytes());
}

// Every round trip derives two Argon2id keys (64 MiB, 3 passes each), so the
// three levels are spread over two tests.
#[test]
fn test_all_levels_serialise() {
    for level in [SecurityLevel::Level1, SecurityLevel::Level3] {
        serialise_level(level);
    }
}

#[test]
fn all_levels_serialise_level5() {
    serialise_level(SecurityLevel::Level5);
}

#[test]
fn test_bundle_has_version_field() {
    let kp = KemKeyPair::generate(SecurityLevel::Level3).unwrap();
    let bundle = EncryptedKeyBundle::seal_kem(&kp, b"version-test").unwrap();
    let json = to_json(&bundle);
    let parsed: Value = serde_json::from_str(&json).unwrap();
    assert_eq!(parsed["version"], 1, "Bundle must include version field");
    assert!(parsed.get("kind").is_some());
    assert!(parsed.get("salt").is_some());
    assert!(parsed.get("nonce").is_some());
    assert!(parsed.get("ciphertext").is_some());
}

#[test]
fn test_wrong_bundle_kind_rejected() {
    let kp = KemKeyPair::generate(SecurityLevel::Level3).unwrap();
    let bundle = EncryptedKeyBundle::seal_kem(&kp, b"kind-test").unwrap();
    assert!(
        from_json(&to_json(&bundle)).unwrap().unseal_dsa(b"kind-test").is_err(),
        "KEM bundle must be rejected by unseal_dsa"
    );
}

// ── Exact values and each refusal ──

#[test]
fn bundle_fields_have_their_sizes() {
    let kp = DsaKeyPair::generate(SecurityLevel::Level5).unwrap();
    let bundle = EncryptedKeyBundle::seal_dsa(&kp, b"pw").unwrap();
    assert_eq!(bundle.kind(), "dsa");
    assert_eq!(bundle.level(), 5);
    assert_eq!(bundle.salt().len(), 32);
    assert_eq!(bundle.nonce().len(), 24);
    // 4-byte length, public key, secret key, 16-byte tag
    assert_eq!(bundle.ciphertext().len(), 2 * (4 + 2592 + 4864 + 16));
}

#[test]
fn wrong_kind_error_text() {
    let kp = DsaKeyPair::generate(SecurityLevel::Level1).unwrap();
    let bundle = EncryptedKeyBundle::seal_dsa(&kp, b"pw").unwrap();
    assert_eq!(
        bundle.unseal_kem(b"pw").err().unwrap(),
        PqcError::Other("Bundle is not a KEM key".to_string())
    );
}

#[test]
fn unsupported_version_refused() {
    let kp = KemKeyPair::generate(SecurityLevel::Level1).unwrap();
    let b = EncryptedKeyBundle::seal_kem(&kp, b"pw").unwrap();
    let v2 = EncryptedKeyBundle::from_parts(
        2,
        b.kind().to_string(),
        b.level(),
        b.salt().to_string(),
        b.nonce().to_string(),
        b.ciphertext().to_string(),
    );
    assert!(!v2.has_bad_nonce(b"pw", true));
    assert_eq!(
        v2.unseal_kem(b"pw").err().unwrap(),
        PqcError::Other("Unsupported bundle version: 2. Expected 1.".to_string())
    );
}

#[test]
fn unknown_level_refused() {
    let kp = KemKeyPair::generate(SecurityLevel::Level1).unwrap();
    let b = EncryptedKeyBundle::seal_kem(&kp, b"pw").unwrap();
    let odd = EncryptedKeyBundle::from_parts(
        1,
        b.kind().to_string(),
        2,
        b.salt().to_string(),
        b.nonce().to_string(),
        b.ciphertext().to_string(),
    );
    assert_eq!(
        odd.unseal_kem(b"pw").err().unwrap(),
        PqcError::Other("Unknown security level: 2".to_string())
    );
}

#[test]
fn short_nonce_is_reported_before_unsealing() {
    let kp = KemKeyPair::generate(SecurityLevel::Level1).unwrap();
    let b = EncryptedKeyBundle::seal_kem(&kp, b"pw").unwrap();
    let short = EncryptedKeyBundle::from_parts(
        1,
        b.kind().to_string(),
        b.level(),
        b.salt().to_string(),
        "00".to_string(),
        b.ciphertext().to_string(),
    );
    assert!(short.has_bad_nonce(b"pw", true));
    assert!(!b.has_bad_nonce(b"pw", true));
}

#[test]
fn sealing_with_given_salt_and_nonce_is_deterministic() {
    let kp = KemKeyPair::generate(SecurityLevel::Level1).unwrap();
    let salt = [7u8; 16];
    let nonce = [9u8; 12];
    let a = EncryptedKeyBundle::seal_kem_with(&kp, b"pw", &salt, &nonce).unwrap();
    let b = EncryptedKeyBundle::seal_kem_with(&kp, b"pw", &salt, &nonce).unwrap();
    assert_eq!(a.salt(), "07".repeat(16));
    assert_eq!(a.nonce(), "09".repeat(12));
    assert_eq!(a.ciphertext(), b.ciphertext());
    assert_eq!(a.level(), 1);
    let restored = a.unseal_kem(b"pw").unwrap();
    assert_eq!(restored.public_key().as_bytes(), kp.public_key().as_bytes());
}

#[test]
fn sealing_refuses_a_short_salt() {
    let kp = DsaKeyPair::generate(SecurityLevel::Level1).unwrap();
    assert_eq!(
        EncryptedKeyBundle::seal_dsa_with(&kp, b"pw", &[1u8; 7], &[0u8; 12]).err().unwrap(),
        PqcError::Other("Argon2 KDF failed".to_string())
    );
}

#[test]
fn level_numbers_convert_both_ways() {
    for level in [SecurityLevel::Level1, SecurityLevel::Level3, SecurityLevel::Level5] {
        assert_eq!(u8_to_level(level_to_u8(level)), Ok(level));
    }
    assert_eq!(level_to_u8(SecurityLevel::Level3), 3);
    assert_eq!(
        u8_to_level(4),
        Err(PqcError::Other("Unknown security level: 4".to_string()))
    );
}
