//! Post-quantum cryptography library: ML-KEM (Kyber) key encapsulation,
//! ML-DSA (Dilithium) signatures, a hybrid X25519 + ML-KEM exchange,
//! passphrase-sealed key bundles and PEM encoding of public keys.
#![allow(unused_imports)]

use vstd::prelude::*;

pub mod cli;
pub mod dsa;
pub mod error;
pub mod hybrid;
pub mod kem;
pub mod pem;
pub mod secret;
pub mod serial;
pub mod text;
pub mod utils;

pub use error::{PqcError, Result};

verus! {

/// Security level for both KEM and DSA operations.
#[derive(Debug, Clone, Copy, PartialEq, Eq, Structural)]
pub enum SecurityLevel {
    /// Kyber512 / Dilithium2 — ~AES-128. Smallest keys, constrained devices.
    Level1,
    /// Kyber768 / Dilithium3 — ~AES-192. Recommended default.
    Level3,
    /// Kyber1024 / Dilithium5 — ~AES-256. Maximum, long-term secrets.
    Level5,
}

/// The human-readable description of a level.
pub open spec fn level_description(level: SecurityLevel) -> Seq<char> {
    match level {
        SecurityLevel::Level1 => "Level1: Kyber512/Dilithium2 (~AES-128)"@,
        SecurityLevel::Level3 => "Level3: Kyber768/Dilithium3 (~AES-192) — Recommended"@,
        SecurityLevel::Level5 => "Level5: Kyber1024/Dilithium5 (~AES-256) — Maximum"@,
    }
}

impl SecurityLevel {
    /// Human-readable description.
    pub fn description(&self) -> (r: &'static str)
        ensures
            r@ == level_description(*self),
    {
        match self {
            SecurityLevel::Level1 => "Level1: Kyber512/Dilithium2 (~AES-128)",
            SecurityLevel::Level3 => "Level3: Kyber768/Dilithium3 (~AES-192) — Recommended",
            SecurityLevel::Level5 => "Level5: Kyber1024/Dilithium5 (~AES-256) — Maximum",
        }
    }
}

} // verus!
