//! Error types for all PQC Vault operations.
#![allow(unused_imports)]

use vstd::prelude::*;
use vstd::string::*;

verus! {

/// All possible errors from PQC Vault operations.
#[derive(Debug, Clone, PartialEq, Eq)]
pub enum PqcError {
    /// Key generation failed.
    KeyGenerationFailed,
    /// Encapsulation failed.
    EncapsulationFailed,
    /// Decapsulation failed — ciphertext may be malformed or tampered.
    DecapsulationFailed,
    /// Signing operation failed.
    SigningFailed,
    /// Signature verification failed — message or key mismatch.
    VerificationFailed,
    /// Provided key is invalid or wrong length.
    InvalidKey(String),
    /// Provided ciphertext is invalid or wrong length.
    InvalidCiphertext(String),
    /// Provided signature is invalid or wrong length.
    InvalidSignature(String),
    /// Hex decode error.
    HexDecodeError(String),
    /// Generic error.
    Other(String),
}

/// Result type used throughout the library.
pub type Result<T> = core::result::Result<T, PqcError>;

/// The human-readable text of an error.
pub open spec fn error_message(e: PqcError) -> Seq<char> {
    match e {
        PqcError::KeyGenerationFailed => "Key generation failed"@,
        PqcError::EncapsulationFailed => "Encapsulation failed"@,
        PqcError::DecapsulationFailed => "Decapsulation failed"@,
        PqcError::SigningFailed => "Signing failed"@,
        PqcError::VerificationFailed => "Signature verification failed"@,
        PqcError::InvalidKey(m) => "Invalid key: "@ + m@,
        PqcError::InvalidCiphertext(m) => "Invalid ciphertext: "@ + m@,
        PqcError::InvalidSignature(m) => "Invalid signature: "@ + m@,
        PqcError::HexDecodeError(m) => "Hex decode error: "@ + m@,
        PqcError::Other(m) => "Error: "@ + m@,
    }
}

/// `e` is `InvalidKey` with the text `t`.
pub open spec fn invalid_key_with(e: PqcError, t: Seq<char>) -> bool {
    match e {
        PqcError::InvalidKey(m) => m@ == t,
        _ => false,
    }
}

/// `e` is `InvalidCiphertext` with the text `t`.
pub open spec fn invalid_ciphertext_with(e: PqcError, t: Seq<char>) -> bool {
    match e {
        PqcError::InvalidCiphertext(m) => m@ == t,
        _ => false,
    }
}

/// `e` is `InvalidSignature` with the text `t`.
pub open spec fn invalid_signature_with(e: PqcError, t: Seq<char>) -> bool {
    match e {
        PqcError::InvalidSignature(m) => m@ == t,
        _ => false,
    }
}

/// `e` is `Other` with the text `t`.
pub open spec fn other_with(e: PqcError, t: Seq<char>) -> bool {
    match e {
        PqcError::Other(m) => m@ == t,
        _ => false,
    }
}

/// `prefix` followed by `m`, as a new string.
fn prefixed(prefix: &str, m: &String) -> (r: String)
    ensures
        r@ == prefix@ + m@,
{
    let mut r = String::from_str(prefix);
    r.append(m.as_str());
    r
}

impl PqcError {
    /// The text that describes this error (what `Display` shows).
    pub fn message(&self) -> (r: String)
        ensures
            r@ == error_message(*self),
    {
        match self {
            PqcError::KeyGenerationFailed => String::from_str("Key generation failed"),
            PqcError::EncapsulationFailed => String::from_str("Encapsulation failed"),
            PqcError::DecapsulationFailed => String::from_str("Decapsulation failed"),
            PqcError::SigningFailed => String::from_str("Signing failed"),
            PqcError::VerificationFailed => String::from_str("Signature verification failed"),
            PqcError::InvalidKey(m) => prefixed("Invalid key: ", m),
            PqcError::InvalidCiphertext(m) => prefixed("Invalid ciphertext: ", m),
            PqcError::InvalidSignature(m) => prefixed("Invalid signature: ", m),
            PqcError::HexDecodeError(m) => prefixed("Hex decode error: ", m),
            PqcError::Other(m) => prefixed("Error: ", m),
        }
    }
}

} // verus!
