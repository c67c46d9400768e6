use pqc_vault::error::PqcError;
use pqc_vault::SecurityLevel;

#[test]
fn level_descriptions() {
    assert_eq!(SecurityLevel::Level1.description(), "Level1: Kyber512/Dilithium2 (~AES-128)");
    assert_eq!(
        SecurityLevel::Level3.description(),
        "Level3: Kyber768/Dilithium3 (~AES-192) — Recommended"
    );
    assert_eq!(
        SecurityLevel::Level5.description(),
        "Level5: Kyber1024/Dilithium5 (~AES-256) — Maximum"
    );
}

#[test]
fn error_messages() {
    assert_eq!(PqcError::KeyGenerationFailed.message(), "Key generation failed");
    assert_eq!(PqcError::EncapsulationFailed.message(), "Encapsulation failed");
    assert_eq!(PqcError::DecapsulationFailed.message(), "Decapsulation failed");
    assert_eq!(PqcError::SigningFailed.message(), "Signing failed");
    assert_eq!(PqcError::VerificationFailed.message(), "Signature verification failed");
    assert_eq!(PqcError::InvalidKey("x".to_string()).message(), "Invalid key: x");
    assert_eq!(PqcError::InvalidCiphertext("y".to_string()).message(), "Invalid ciphertext: y");
    assert_eq!(PqcError::InvalidSignature("z".to_string()).message(), "Invalid signature: z");
    assert_eq!(PqcError::HexDecodeError("h".to_string()).message(), "Hex decode error: h");
    assert_eq!(PqcError::Other("o".to_string()).message(), "Error: o");
}
