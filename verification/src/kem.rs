//! ML-KEM (CRYSTALS-Kyber) key encapsulation at three security levels.
#![allow(unused_imports)]

use crate::error::{invalid_ciphertext_with, invalid_key_with, PqcError, Result};
use crate::secret::SecretBytes;
use crate::text::{decimal_text, push_decimal};
use crate::serial::KemKeyData;
use crate::utils::{ct_eq, hex_encoding, to_hex};
use crate::SecurityLevel;
use pqcrypto_kyber::{kyber1024, kyber512, kyber768};
use pqcrypto_traits::kem::{Ciphertext, PublicKey, SecretKey, SharedSecret};
use vstd::prelude::*;
use vstd::slice::slice_to_vec;

verus! {

// ── Sizes ─────────────────────────────────────────────────────────────────────

/// Byte sizes for a KEM security level.
pub struct KemSizes {
    pub public_key: usize,
    pub private_key: usize,
    pub ciphertext: usize,
    pub shared_secret: usize,
}

/// The FIPS 203 byte sizes of each Kyber variant.
pub open spec fn kem_sizes(level: SecurityLevel) -> KemSizes {
    match level {
        SecurityLevel::Level1 => KemSizes {
            public_key: 800,
            private_key: 1632,
            ciphertext: 768,
            shared_secret: 32,
        },
        SecurityLevel::Level3 => KemSizes {
            public_key: 1184,
            private_key: 2400,
            ciphertext: 1088,
            shared_secret: 32,
        },
        SecurityLevel::Level5 => KemSizes {
            public_key: 1568,
            private_key: 3168,
            ciphertext: 1568,
            shared_secret: 32,
        },
    }
}

fn sizes_of(level: SecurityLevel) -> (r: KemSizes)
    ensures
        r == kem_sizes(level),
{
    match level {
        SecurityLevel::Level1 => KemSizes {
            public_key: 800,
            private_key: 1632,
            ciphertext: 768,
            shared_secret: 32,
        },
        SecurityLevel::Level3 => KemSizes {
            public_key: 1184,
            private_key: 2400,
            ciphertext: 1088,
            shared_secret: 32,
        },
        SecurityLevel::Level5 => KemSizes {
            public_key: 1568,
            private_key: 3168,
            ciphertext: 1568,
            shared_secret: 32,
        },
    }
}

/// The text that describes a set of KEM sizes, in bytes.
pub open spec fn kem_sizes_text(s: KemSizes) -> Seq<char> {
    "PK: "@ + decimal_text(s.public_key as nat) + "B | SK: "@ + decimal_text(s.private_key as nat)
        + "B | CT: "@ + decimal_text(s.ciphertext as nat) + "B | SS: "@ + decimal_text(
        s.shared_secret as nat,
    ) + "B"@
}

impl KemSizes {
    /// The sizes as text, for example `PK: 1184B | SK: 2400B | CT: 1088B | SS: 32B`.
    pub fn to_text(&self) -> (r: String)
        ensures
            r@ == kem_sizes_text(*self),
    {
        let mut r = String::from_str("PK: ");
        push_decimal(&mut r, self.public_key as u64);
        r.append("B | SK: ");
        push_decimal(&mut r, self.private_key as u64);
        r.append("B | CT: ");
        push_decimal(&mut r, self.ciphertext as u64);
        r.append("B | SS: ");
        push_decimal(&mut r, self.shared_secret as u64);
        r.append("B");
        r
    }
}

// ── The Kyber primitives ──────────────────────────────────────────────────────

/// Holds of the public and secret key bytes that one call of
/// `pqcrypto_kyber::kyber512::keypair` returns together.
pub uninterp spec fn kyber512_key_pair(pk: Seq<u8>, sk: Seq<u8>) -> bool;

/// Holds of the public and secret key bytes that one call of
/// `pqcrypto_kyber::kyber768::keypair` returns together.
pub uninterp spec fn kyber768_key_pair(pk: Seq<u8>, sk: Seq<u8>) -> bool;

/// Holds of the public and secret key bytes that one call of
/// `pqcrypto_kyber::kyber1024::keypair` returns together.
pub uninterp spec fn kyber1024_key_pair(pk: Seq<u8>, sk: Seq<u8>) -> bool;

/// The shared secret that `pqcrypto_kyber::kyber512::decapsulate` computes.
pub uninterp spec fn kyber512_decapsulation(ct: Seq<u8>, sk: Seq<u8>) -> Seq<u8>;

/// The shared secret that `pqcrypto_kyber::kyber768::decapsulate` computes.
pub uninterp spec fn kyber768_decapsulation(ct: Seq<u8>, sk: Seq<u8>) -> Seq<u8>;

/// The shared secret that `pqcrypto_kyber::kyber1024::decapsulate` computes.
pub uninterp spec fn kyber1024_decapsulation(ct: Seq<u8>, sk: Seq<u8>) -> Seq<u8>;

/// Whether `pk` and `sk` were generated together for `level`.
pub open spec fn kem_key_pair(level: SecurityLevel, pk: Seq<u8>, sk: Seq<u8>) -> bool {
    match level {
        SecurityLevel::Level1 => kyber512_key_pair(pk, sk),
        SecurityLevel::Level3 => kyber768_key_pair(pk, sk),
        SecurityLevel::Level5 => kyber1024_key_pair(pk, sk),
    }
}

/// The shared secret that decapsulating `ct` with `sk` gives at `level`.
pub open spec fn kem_decapsulation(level: SecurityLevel, ct: Seq<u8>, sk: Seq<u8>) -> Seq<u8> {
    match level {
        SecurityLevel::Level1 => kyber512_decapsulation(ct, sk),
        SecurityLevel::Level3 => kyber768_decapsulation(ct, sk),
        SecurityLevel::Level5 => kyber1024_decapsulation(ct, sk),
    }
}

/// Holds of the ciphertext and shared secret that one call of
/// `pqcrypto_kyber::kyber512::encapsulate` returns for the public key `pk`.
pub uninterp spec fn kyber512_encapsulation(pk: Seq<u8>, ct: Seq<u8>, ss: Seq<u8>) -> bool;

/// Holds of the ciphertext and shared secret that one call of
/// `pqcrypto_kyber::kyber768::encapsulate` returns for the public key `pk`.
pub uninterp spec fn kyber768_encapsulation(pk: Seq<u8>, ct: Seq<u8>, ss: Seq<u8>) -> bool;

/// Holds of the ciphertext and shared secret that one call of
/// `pqcrypto_kyber::kyber1024::encapsulate` returns for the public key `pk`.
pub uninterp spec fn kyber1024_encapsulation(pk: Seq<u8>, ct: Seq<u8>, ss: Seq<u8>) -> bool;

/// Whether `(ct, ss)` is what one encapsulation to `pk` at `level` returned.
pub open spec fn kem_encapsulation(level: SecurityLevel, pk: Seq<u8>, ct: Seq<u8>, ss: Seq<u8>) -> bool {
    match level {
        SecurityLevel::Level1 => kyber512_encapsulation(pk, ct, ss),
        SecurityLevel::Level3 => kyber768_encapsulation(pk, ct, ss),
        SecurityLevel::Level5 => kyber1024_encapsulation(pk, ct, ss),
    }
}

/// `(ct, ss)` is a possible outcome of encapsulating to the public key `pk`
/// (level and bytes): the sizes are right, and it is what the level's
/// Kyber encapsulation returned for `pk`. Nothing is claimed of what
/// decapsulating `ct` gives: Kyber's decryption fails with a small
/// probability, and then decapsulation returns a pseudo-random secret.
pub open spec fn kem_encapsulated(pk: (SecurityLevel, Seq<u8>), ct: Seq<u8>, ss: Seq<u8>) -> bool {
    &&& ct.len() == kem_sizes(pk.0).ciphertext
    &&& ss.len() == kem_sizes(pk.0).shared_secret
    &&& kem_encapsulation(pk.0, pk.1, ct, ss)
}

/// Kyber's decryption of `ct` with `sk` gives back the secret `ss` that was
/// encapsulated. For a ciphertext encapsulated to the matching public key
/// this fails only with a probability below 2^-139; where it is used, it is
/// a hypothesis, not a fact.
pub open spec fn kem_decrypts(level: SecurityLevel, sk: Seq<u8>, ct: Seq<u8>, ss: Seq<u8>) -> bool {
    kem_decapsulation(level, ct, sk) == ss
}

/// `kyber512::keypair()` (OS entropy); both halves are returned as bytes
/// (`as_bytes`). The sizes are those of the crate's `PublicKey` and
/// `SecretKey` arrays.
#[verifier::external_body]
fn kyber512_keypair() -> (r: (Vec<u8>, Vec<u8>))
    ensures
        r.0@.len() == 800,
        r.1@.len() == 1632,
        kyber512_key_pair(r.0@, r.1@),
{
    let (pk, sk) = kyber512::keypair();
    (pk.as_bytes().to_vec(), sk.as_bytes().to_vec())
}

/// `kyber768::keypair()` (OS entropy); both halves are returned as bytes.
#[verifier::external_body]
fn kyber768_keypair() -> (r: (Vec<u8>, Vec<u8>))
    ensures
        r.0@.len() == 1184,
        r.1@.len() == 2400,
        kyber768_key_pair(r.0@, r.1@),
{
    let (pk, sk) = kyber768::keypair();
    (pk.as_bytes().to_vec(), sk.as_bytes().to_vec())
}

/// `kyber1024::keypair()` (OS entropy); both halves are returned as bytes.
#[verifier::external_body]
fn kyber1024_keypair() -> (r: (Vec<u8>, Vec<u8>))
    ensures
        r.0@.len() == 1568,
        r.1@.len() == 3168,
        kyber1024_key_pair(r.0@, r.1@),
{
    let (pk, sk) = kyber1024::keypair();
    (pk.as_bytes().to_vec(), sk.as_bytes().to_vec())
}

/// `kyber512::encapsulate` (OS entropy) to the key that
/// `PublicKey::from_bytes` makes of `pk` (it accepts exactly 800 bytes).
/// Returns `(ciphertext, shared secret)` as bytes: 768 and 32 bytes, the
/// sizes of the crate's `Ciphertext` and `SharedSecret` arrays. What
/// decapsulating the ciphertext gives is left unsaid (see `kem_decrypts`).
#[verifier::external_body]
fn kyber512_encapsulate(pk: &[u8]) -> (r: (Vec<u8>, Vec<u8>))
    requires
        pk@.len() == 800,
    ensures
        r.0@.len() == 768,
        r.1@.len() == 32,
        kyber512_encapsulation(pk@, r.0@, r.1@),
{
    let pk = kyber512::PublicKey::from_bytes(pk).expect("length checked by the caller");
    let (ss, ct) = kyber512::encapsulate(&pk);
    (ct.as_bytes().to_vec(), ss.as_bytes().to_vec())
}

/// `kyber768::encapsulate` (OS entropy) to the key that
/// `PublicKey::from_bytes` makes of `pk` (exactly 1184 bytes); returns the
/// 1088-byte ciphertext and the 32-byte shared secret.
#[verifier::external_body]
fn kyber768_encapsulate(pk: &[u8]) -> (r: (Vec<u8>, Vec<u8>))
    requires
        pk@.len() == 1184,
    ensures
        r.0@.len() == 1088,
        r.1@.len() == 32,
        kyber768_encapsulation(pk@, r.0@, r.1@),
{
    let pk = kyber768::PublicKey::from_bytes(pk).expect("length checked by the caller");
    let (ss, ct) = kyber768::encapsulate(&pk);
    (ct.as_bytes().to_vec(), ss.as_bytes().to_vec())
}

/// `kyber1024::encapsulate` (OS entropy) to the key that
/// `PublicKey::from_bytes` makes of `pk` (exactly 1568 bytes); returns the
/// 1568-byte ciphertext and the 32-byte shared secret.
#[verifier::external_body]
fn kyber1024_encapsulate(pk: &[u8]) -> (r: (Vec<u8>, Vec<u8>))
    requires
        pk@.len() == 1568,
    ensures
        r.0@.len() == 1568,
        r.1@.len() == 32,
        kyber1024_encapsulation(pk@, r.0@, r.1@),
{
    let pk = kyber1024::PublicKey::from_bytes(pk).expect("length checked by the caller");
    let (ss, ct) = kyber1024::encapsulate(&pk);
    (ct.as_bytes().to_vec(), ss.as_bytes().to_vec())
}

/// `kyber512::decapsulate` of the ciphertext and secret key that
/// `from_bytes` makes of `ct` (768 bytes) and `sk` (1632 bytes); the
/// 32-byte shared secret is returned as bytes.
#[verifier::external_body]
fn kyber512_decapsulate(ct: &[u8], sk: &[u8]) -> (r: Vec<u8>)
    requires
        ct@.len() == 768,
        sk@.len() == 1632,
    ensures
        r@ == kyber512_decapsulation(ct@, sk@),
        r@.len() == 32,
{
    let ct = kyber512::Ciphertext::from_bytes(ct).expect("length checked by the caller");
    let sk = kyber512::SecretKey::from_bytes(sk).expect("length checked by the caller");
    kyber512::decapsulate(&ct, &sk).as_bytes().to_vec()
}

/// `kyber768::decapsulate` of the ciphertext (1088 bytes) and secret key
/// (2400 bytes) that `from_bytes` makes; the 32-byte secret as bytes.
#[verifier::external_body]
fn kyber768_decapsulate(ct: &[u8], sk: &[u8]) -> (r: Vec<u8>)
    requires
        ct@.len() == 1088,
        sk@.len() == 2400,
    ensures
        r@ == kyber768_decapsulation(ct@, sk@),
        r@.len() == 32,
{
    let ct = kyber768::Ciphertext::from_bytes(ct).expect("length checked by the caller");
    let sk = kyber768::SecretKey::from_bytes(sk).expect("length checked by the caller");
    kyber768::decapsulate(&ct, &sk).as_bytes().to_vec()
}

/// `kyber1024::decapsulate` of the ciphertext (1568 bytes) and secret key
/// (3168 bytes) that `from_bytes` makes; the 32-byte secret as bytes.
#[verifier::external_body]
fn kyber1024_decapsulate(ct: &[u8], sk: &[u8]) -> (r: Vec<u8>)
    requires
        ct@.len() == 1568,
        sk@.len() == 3168,
    ensures
        r@ == kyber1024_decapsulation(ct@, sk@),
        r@.len() == 32,
{
    let ct = kyber1024::Ciphertext::from_bytes(ct).expect("length checked by the caller");
    let sk = kyber1024::SecretKey::from_bytes(sk).expect("length checked by the caller");
    kyber1024::decapsulate(&ct, &sk).as_bytes().to_vec()
}

// ── Shared secret ─────────────────────────────────────────────────────────────

/// A shared secret produced by KEM encapsulation or decapsulation.
///
/// `==` on this type compares in constant time, and the bytes are wiped from
/// memory when the value is dropped.
#[derive(Debug)]
pub struct SharedSecretKey(SecretBytes);

impl View for SharedSecretKey {
    type V = Seq<u8>;

    closed spec fn view(&self) -> Seq<u8> {
        self.0@
    }
}

impl SharedSecretKey {
    fn new(bytes: Vec<u8>) -> (r: SharedSecretKey)
        ensures
            r@ == bytes@,
    {
        SharedSecretKey(SecretBytes::new(bytes))
    }

    /// Raw bytes of the shared secret. Use `.len()` on the returned slice for length.
    pub fn as_bytes(&self) -> (r: &[u8])
        ensures
            r@ == self@,
    {
        self.0.as_slice()
    }
}

/// Constant-time equality — safe to use for comparing secrets.
impl PartialEq for SharedSecretKey {
    fn eq(&self, other: &Self) -> (r: bool) {
        ct_eq(self.as_bytes(), other.as_bytes())
    }
}

impl Eq for SharedSecretKey {
}

impl vstd::std_specs::cmp::PartialEqSpecImpl for SharedSecretKey {
    open spec fn obeys_eq_spec() -> bool {
        true
    }

    open spec fn eq_spec(&self, other: &SharedSecretKey) -> bool {
        self@ == other@
    }
}

// ── Typed public key ──────────────────────────────────────────────────────────

/// The error text for a public key of the wrong length.
pub open spec fn kem_bad_public_key_text(level: SecurityLevel) -> Seq<char> {
    match level {
        SecurityLevel::Level1 => "Invalid Kyber512 public key"@,
        SecurityLevel::Level3 => "Invalid Kyber768 public key"@,
        SecurityLevel::Level5 => "Invalid Kyber1024 public key"@,
    }
}

fn bad_public_key(level: SecurityLevel) -> (e: PqcError)
    ensures
        invalid_key_with(e, kem_bad_public_key_text(level)),
{
    match level {
        SecurityLevel::Level1 => PqcError::InvalidKey(String::from_str("Invalid Kyber512 public key")),
        SecurityLevel::Level3 => PqcError::InvalidKey(String::from_str("Invalid Kyber768 public key")),
        SecurityLevel::Level5 => PqcError::InvalidKey(String::from_str("Invalid Kyber1024 public key")),
    }
}

/// The error text for a secret key of the wrong length.
pub open spec fn kem_bad_secret_key_text(level: SecurityLevel) -> Seq<char> {
    match level {
        SecurityLevel::Level1 => "Invalid Kyber512 secret key"@,
        SecurityLevel::Level3 => "Invalid Kyber768 secret key"@,
        SecurityLevel::Level5 => "Invalid Kyber1024 secret key"@,
    }
}

/// The error text for a ciphertext of the wrong length.
pub open spec fn kem_bad_ciphertext_text(level: SecurityLevel) -> Seq<char> {
    match level {
        SecurityLevel::Level1 => "Invalid Kyber512 ciphertext"@,
        SecurityLevel::Level3 => "Invalid Kyber768 ciphertext"@,
        SecurityLevel::Level5 => "Invalid Kyber1024 ciphertext"@,
    }
}

fn bad_ciphertext(level: SecurityLevel) -> (e: PqcError)
    ensures
        invalid_ciphertext_with(e, kem_bad_ciphertext_text(level)),
{
    match level {
        SecurityLevel::Level1 => PqcError::InvalidCiphertext(String::from_str("Invalid Kyber512 ciphertext")),
        SecurityLevel::Level3 => PqcError::InvalidCiphertext(String::from_str("Invalid Kyber768 ciphertext")),
        SecurityLevel::Level5 => PqcError::InvalidCiphertext(String::from_str("Invalid Kyber1024 ciphertext")),
    }
}

/// A typed KEM public key. Carries its security level.
pub struct KemPublicKey {
    level: SecurityLevel,
    bytes: Vec<u8>,
}

impl View for KemPublicKey {
    /// The level and the key bytes.
    type V = (SecurityLevel, Seq<u8>);

    closed spec fn view(&self) -> (SecurityLevel, Seq<u8>) {
        (self.level, self.bytes@)
    }
}

/// A public key's bytes have the length of its level's Kyber variant.
pub open spec fn kem_public_key_ok(pk: (SecurityLevel, Seq<u8>)) -> bool {
    pk.1.len() == kem_sizes(pk.0).public_key
}

impl Clone for KemPublicKey {
    /// A copy of the key: same level, same bytes.
    fn clone(&self) -> (r: Self)
        ensures
            r@ == self@,
    {
        proof {
            use_type_invariant(self);
        }
        KemPublicKey { level: self.level, bytes: slice_to_vec(self.bytes.as_slice()) }
    }
}

impl KemPublicKey {
    #[verifier::type_invariant]
    spec fn length_ok(self) -> bool {
        kem_public_key_ok(self@)
    }

    /// The security level this key was generated for.
    pub fn level(&self) -> (r: SecurityLevel)
        ensures
            r == self@.0,
            kem_public_key_ok(self@),
    {
        proof {
            use_type_invariant(self);
        }
        self.level
    }

    /// Raw bytes of the public key; they have the length of the key's level.
    pub fn as_bytes(&self) -> (r: &[u8])
        ensures
            r@ == self@.1,
            kem_public_key_ok(self@),
    {
        proof {
            use_type_invariant(self);
        }
        self.bytes.as_slice()
    }

    /// Hex-encoded public key.
    pub fn to_hex(&self) -> (r: String)
        ensures
            r@ == hex_encoding(self@.1),
    {
        to_hex(self.bytes.as_slice())
    }

    /// A public key of `level` made of `bytes`, accepted only when the bytes
    /// have the length that the Kyber variant's `PublicKey::from_bytes`
    /// accepts.
    pub fn from_validated(level: SecurityLevel, bytes: Vec<u8>) -> (r: Result<KemPublicKey>)
        ensures
            match r {
                Ok(k) => bytes@.len() == kem_sizes(level).public_key && k@ == (level, bytes@),
                Err(e) => bytes@.len() != kem_sizes(level).public_key
                    && invalid_key_with(e, kem_bad_public_key_text(level)),
            },
    {
        if bytes.len() != sizes_of(level).public_key {
            return Err(bad_public_key(level));
        }
        Ok(KemPublicKey { level, bytes })
    }
}

// ── Key pair ──────────────────────────────────────────────────────────────────

/// A KEM key pair. The private key is automatically wiped from memory on drop.
pub struct KemKeyPair {
    level: SecurityLevel,
    pk_bytes: Vec<u8>,
    sk_bytes: SecretBytes,
}

impl View for KemKeyPair {
    /// The level, the public key bytes and the secret key bytes.
    type V = (SecurityLevel, Seq<u8>, Seq<u8>);

    closed spec fn view(&self) -> (SecurityLevel, Seq<u8>, Seq<u8>) {
        (self.level, self.pk_bytes@, self.sk_bytes@)
    }
}

/// Key bytes of the lengths that the level's Kyber variant uses.
pub open spec fn kem_key_lengths_ok(kp: (SecurityLevel, Seq<u8>, Seq<u8>)) -> bool {
    &&& kp.1.len() == kem_sizes(kp.0).public_key
    &&& kp.2.len() == kem_sizes(kp.0).private_key
}

/// Whether a key pair's halves were generated together.
pub open spec fn kem_matched(kp: (SecurityLevel, Seq<u8>, Seq<u8>)) -> bool {
    kem_key_pair(kp.0, kp.1, kp.2)
}

/// What decapsulating `ct` with the key pair `kp` gives: the shared secret
/// when `ct` has the level's ciphertext length, else nothing.
pub open spec fn kem_decapsulate_result(kp: (SecurityLevel, Seq<u8>, Seq<u8>), ct: Seq<u8>) -> Option<Seq<u8>> {
    if ct.len() == kem_sizes(kp.0).ciphertext {
        Some(kem_decapsulation(kp.0, ct, kp.2))
    } else {
        None
    }
}

impl KemKeyPair {
    #[verifier::type_invariant]
    spec fn lengths_ok(self) -> bool {
        kem_key_lengths_ok(self@)
    }

    /// Generate a fresh key pair using OS entropy.
    pub fn generate(level: SecurityLevel) -> (r: Result<Self>)
        ensures
            r matches Ok(kp) && kp@.0 == level && kem_matched(kp@) && kem_key_lengths_ok(kp@),
    {
        let (pk_bytes, sk) = match level {
            SecurityLevel::Level1 => kyber512_keypair(),
            SecurityLevel::Level3 => kyber768_keypair(),
            SecurityLevel::Level5 => kyber1024_keypair(),
        };
        let sk_bytes = SecretBytes::new(sk);
        Ok(KemKeyPair { level, pk_bytes, sk_bytes })
    }

    /// A key pair of `level` made of the given key bytes, accepted only when
    /// both have the lengths that the Kyber variant's `from_bytes` accepts.
    pub fn from_bytes(level: SecurityLevel, public_key: &[u8], secret_key: &[u8]) -> (r: Result<Self>)
        ensures
            match r {
                Ok(kp) => kp@ == (level, public_key@, secret_key@)
                    && kem_key_lengths_ok((level, public_key@, secret_key@)),
                Err(e) => !kem_key_lengths_ok((level, public_key@, secret_key@)) && if public_key@.len()
                    != kem_sizes(level).public_key {
                    invalid_key_with(e, kem_bad_public_key_text(level))
                } else {
                    invalid_key_with(e, kem_bad_secret_key_text(level))
                },
            },
    {
        let sizes = sizes_of(level);
        if public_key.len() != sizes.public_key {
            return Err(bad_public_key(level));
        }
        if secret_key.len() != sizes.private_key {
            return Err(match level {
                SecurityLevel::Level1 => PqcError::InvalidKey(String::from_str("Invalid Kyber512 secret key")),
                SecurityLevel::Level3 => PqcError::InvalidKey(String::from_str("Invalid Kyber768 secret key")),
                SecurityLevel::Level5 => PqcError::InvalidKey(String::from_str("Invalid Kyber1024 secret key")),
            });
        }
        Ok(KemKeyPair {
            level,
            pk_bytes: slice_to_vec(public_key),
            sk_bytes: SecretBytes::new(slice_to_vec(secret_key)),
        })
    }

    /// Exports the key bytes (level, public key, secret key). Never fails.
    pub fn export(&self) -> (r: Result<KemKeyData>)
        ensures
            r matches Ok(d) && d@ == self@,
            kem_key_lengths_ok(self@),
    {
        proof {
            use_type_invariant(self);
        }
        Ok(KemKeyData::new(
            self.level,
            slice_to_vec(self.pk_bytes.as_slice()),
            SecretBytes::new(slice_to_vec(self.sk_bytes.as_slice())),
        ))
    }

    /// Returns the security level.
    pub fn security_level(&self) -> (r: SecurityLevel)
        ensures
            r == self@.0,
    {
        self.level
    }

    /// Returns the typed public key — safe to distribute.
    pub fn public_key(&self) -> (r: KemPublicKey)
        ensures
            r@ == (self@.0, self@.1),
            kem_public_key_ok(r@),
    {
        proof {
            use_type_invariant(self);
        }
        KemPublicKey { level: self.level, bytes: slice_to_vec(self.pk_bytes.as_slice()) }
    }

    /// Encapsulate to a typed public key.
    ///
    /// Returns `(ciphertext, shared_secret)`. Never fails: every public key
    /// has the length of its level.
    pub fn encapsulate(pub_key: &KemPublicKey) -> (r: Result<(Vec<u8>, SharedSecretKey)>)
        ensures
            r matches Ok((ct, ss)) && kem_encapsulated(pub_key@, ct@, ss@),
    {
        proof {
            use_type_invariant(pub_key);
        }
        let pk = pub_key.bytes.as_slice();
        let (ct, ss) = match pub_key.level {
            SecurityLevel::Level1 => kyber512_encapsulate(pk),
            SecurityLevel::Level3 => kyber768_encapsulate(pk),
            SecurityLevel::Level5 => kyber1024_encapsulate(pk),
        };
        Ok((ct, SharedSecretKey::new(ss)))
    }

    /// Decapsulate a ciphertext using the private key. Fails only when the
    /// ciphertext does not have the length of the key pair's level.
    pub fn decapsulate(&self, ciphertext: &[u8]) -> (r: Result<SharedSecretKey>)
        ensures
            match r {
                Ok(ss) => kem_decapsulate_result(self@, ciphertext@) == Some(ss@),
                Err(e) => kem_decapsulate_result(self@, ciphertext@) is None
                    && invalid_ciphertext_with(e, kem_bad_ciphertext_text(self@.0)),
            },
    {
        proof {
            use_type_invariant(self);
        }
        let level = self.level;
        if ciphertext.len() != sizes_of(level).ciphertext {
            return Err(bad_ciphertext(level));
        }
        let sk = self.sk_bytes.as_slice();
        let ss = match level {
            SecurityLevel::Level1 => kyber512_decapsulate(ciphertext, sk),
            SecurityLevel::Level3 => kyber768_decapsulate(ciphertext, sk),
            SecurityLevel::Level5 => kyber1024_decapsulate(ciphertext, sk),
        };
        Ok(SharedSecretKey::new(ss))
    }

    /// Key and ciphertext sizes for this security level.
    pub fn key_sizes(&self) -> (r: KemSizes)
        ensures
            r == kem_sizes(self@.0),
    {
        sizes_of(self.level)
    }
}

/// Decapsulating a ciphertext that was encapsulated to a key pair's public
/// key is accepted (it has the level's length), and gives back the
/// encapsulated shared secret whenever Kyber's decryption succeeds, which
/// is taken as the hypothesis `kem_decrypts`.
pub proof fn lemma_kem_roundtrip(kp: (SecurityLevel, Seq<u8>, Seq<u8>), ct: Seq<u8>, ss: Seq<u8>)
    requires
        kem_encapsulated((kp.0, kp.1), ct, ss),
    ensures
        kem_decapsulate_result(kp, ct) is Some,
        kem_decrypts(kp.0, kp.2, ct, ss) ==> kem_decapsulate_result(kp, ct) == Some(ss),
{
}

} // verus!
