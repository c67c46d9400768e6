//! ML-DSA (CRYSTALS-Dilithium) signatures at three security levels.
#![allow(unused_imports)]

use crate::error::{invalid_key_with, invalid_signature_with, PqcError, Result};
use crate::secret::SecretBytes;
use crate::text::{decimal_text, push_decimal};
use crate::serial::DsaKeyData;
use crate::utils::{hex_encoding, to_hex};
use crate::SecurityLevel;
use pqcrypto_dilithium::{dilithium2, dilithium3, dilithium5};
use pqcrypto_traits::sign::{DetachedSignature, PublicKey, SecretKey};
use vstd::prelude::*;
use vstd::slice::slice_to_vec;

verus! {

// ── Sizes ─────────────────────────────────────────────────────────────────────

/// Byte sizes for a DSA security level.
pub struct DsaSizes {
    pub public_key: usize,
    pub private_key: usize,
    pub signature: usize,
}

/// The byte sizes of each Dilithium variant.
pub open spec fn dsa_sizes(level: SecurityLevel) -> DsaSizes {
    match level {
        SecurityLevel::Level1 => DsaSizes { public_key: 1312, private_key: 2528, signature: 2420 },
        SecurityLevel::Level3 => DsaSizes { public_key: 1952, private_key: 4000, signature: 3293 },
        SecurityLevel::Level5 => DsaSizes { public_key: 2592, private_key: 4864, signature: 4595 },
    }
}

fn sizes_of(level: SecurityLevel) -> (r: DsaSizes)
    ensures
        r == dsa_sizes(level),
{
    match level {
        SecurityLevel::Level1 => DsaSizes { public_key: 1312, private_key: 2528, signature: 2420 },
        SecurityLevel::Level3 => DsaSizes { public_key: 1952, private_key: 4000, signature: 3293 },
        SecurityLevel::Level5 => DsaSizes { public_key: 2592, private_key: 4864, signature: 4595 },
    }
}

/// The text that describes a set of DSA sizes, in bytes.
pub open spec fn dsa_sizes_text(s: DsaSizes) -> Seq<char> {
    "PK: "@ + decimal_text(s.public_key as nat) + "B | SK: "@ + decimal_text(s.private_key as nat)
        + "B | Sig: "@ + decimal_text(s.signature as nat) + "B"@
}

impl DsaSizes {
    /// The sizes as text, for example `PK: 1952B | SK: 4000B | Sig: 3293B`.
    pub fn to_text(&self) -> (r: String)
        ensures
            r@ == dsa_sizes_text(*self),
    {
        let mut r = String::from_str("PK: ");
        push_decimal(&mut r, self.public_key as u64);
        r.append("B | SK: ");
        push_decimal(&mut r, self.private_key as u64);
        r.append("B | Sig: ");
        push_decimal(&mut r, self.signature as u64);
        r.append("B");
        r
    }
}

// ── The Dilithium primitives ──────────────────────────────────────────────────

/// Holds of the public and secret key bytes that one call of
/// `pqcrypto_dilithium::dilithium2::keypair` returns together.
pub uninterp spec fn dilithium2_key_pair(pk: Seq<u8>, sk: Seq<u8>) -> bool;

/// Holds of the public and secret key bytes that one call of
/// `pqcrypto_dilithium::dilithium3::keypair` returns together.
pub uninterp spec fn dilithium3_key_pair(pk: Seq<u8>, sk: Seq<u8>) -> bool;

/// Holds of the public and secret key bytes that one call of
/// `pqcrypto_dilithium::dilithium5::keypair` returns together.
pub uninterp spec fn dilithium5_key_pair(pk: Seq<u8>, sk: Seq<u8>) -> bool;

/// The signature bytes that `dilithium2::detached_sign` computes (its
/// signing is deterministic).
pub uninterp spec fn dilithium2_signature(sk: Seq<u8>, msg: Seq<u8>) -> Seq<u8>;

/// The signature bytes that `dilithium3::detached_sign` computes.
pub uninterp spec fn dilithium3_signature(sk: Seq<u8>, msg: Seq<u8>) -> Seq<u8>;

/// The signature bytes that `dilithium5::detached_sign` computes.
pub uninterp spec fn dilithium5_signature(sk: Seq<u8>, msg: Seq<u8>) -> Seq<u8>;

/// Whether `dilithium2::verify_detached_signature` accepts.
pub uninterp spec fn dilithium2_accepts(pk: Seq<u8>, msg: Seq<u8>, sig: Seq<u8>) -> bool;

/// Whether `dilithium3::verify_detached_signature` accepts.
pub uninterp spec fn dilithium3_accepts(pk: Seq<u8>, msg: Seq<u8>, sig: Seq<u8>) -> bool;

/// Whether `dilithium5::verify_detached_signature` accepts.
pub uninterp spec fn dilithium5_accepts(pk: Seq<u8>, msg: Seq<u8>, sig: Seq<u8>) -> bool;

/// Whether `pk` and `sk` were generated together for `level`.
pub open spec fn dsa_key_pair(level: SecurityLevel, pk: Seq<u8>, sk: Seq<u8>) -> bool {
    match level {
        SecurityLevel::Level1 => dilithium2_key_pair(pk, sk),
        SecurityLevel::Level3 => dilithium3_key_pair(pk, sk),
        SecurityLevel::Level5 => dilithium5_key_pair(pk, sk),
    }
}

/// The signature of `msg` under the secret key `sk` at `level`.
pub open spec fn dsa_signature(level: SecurityLevel, sk: Seq<u8>, msg: Seq<u8>) -> Seq<u8> {
    match level {
        SecurityLevel::Level1 => dilithium2_signature(sk, msg),
        SecurityLevel::Level3 => dilithium3_signature(sk, msg),
        SecurityLevel::Level5 => dilithium5_signature(sk, msg),
    }
}

/// Whether the level's verification accepts `sig` on `msg` under `pk`.
pub open spec fn dsa_accepts(level: SecurityLevel, pk: Seq<u8>, msg: Seq<u8>, sig: Seq<u8>) -> bool {
    match level {
        SecurityLevel::Level1 => dilithium2_accepts(pk, msg, sig),
        SecurityLevel::Level3 => dilithium3_accepts(pk, msg, sig),
        SecurityLevel::Level5 => dilithium5_accepts(pk, msg, sig),
    }
}

/// `sig` is what signing `msg` with `sk` gives at `level`: the level's
/// signature, of the level's signature length, which verification under
/// every public key generated together with `sk` accepts.
pub open spec fn dsa_signed(level: SecurityLevel, sk: Seq<u8>, msg: Seq<u8>, sig: Seq<u8>) -> bool {
    &&& sig == dsa_signature(level, sk, msg)
    &&& sig.len() == dsa_sizes(level).signature
    &&& forall|pk: Seq<u8>|
        dsa_key_pair(level, pk, sk) ==> #[trigger] dsa_accepts(level, pk, msg, sig)
}

/// `dilithium2::keypair()` (OS entropy); both halves as bytes (`as_bytes`),
/// of the sizes of the crate's `PublicKey` and `SecretKey` arrays.
#[verifier::external_body]
fn dilithium2_keypair() -> (r: (Vec<u8>, Vec<u8>))
    ensures
        r.0@.len() == 1312,
        r.1@.len() == 2528,
        dilithium2_key_pair(r.0@, r.1@),
{
    let (pk, sk) = dilithium2::keypair();
    (pk.as_bytes().to_vec(), sk.as_bytes().to_vec())
}

/// `dilithium3::keypair()` (OS entropy); both halves as bytes.
#[verifier::external_body]
fn dilithium3_keypair() -> (r: (Vec<u8>, Vec<u8>))
    ensures
        r.0@.len() == 1952,
        r.1@.len() == 4000,
        dilithium3_key_pair(r.0@, r.1@),
{
    let (pk, sk) = dilithium3::keypair();
    (pk.as_bytes().to_vec(), sk.as_bytes().to_vec())
}

/// `dilithium5::keypair()` (OS entropy); both halves as bytes.
#[verifier::external_body]
fn dilithium5_keypair() -> (r: (Vec<u8>, Vec<u8>))
    ensures
        r.0@.len() == 2592,
        r.1@.len() == 4864,
        dilithium5_key_pair(r.0@, r.1@),
{
    let (pk, sk) = dilithium5::keypair();
    (pk.as_bytes().to_vec(), sk.as_bytes().to_vec())
}

/// `dilithium2::detached_sign` of `msg` with the key that
/// `SecretKey::from_bytes` makes of `sk` (exactly 2528 bytes). The C code
/// always sets the signature length to the full 2420 bytes. That every
/// matching public key accepts the signature is the scheme's correctness,
/// shown by the crate's own test.
#[verifier::external_body]
fn dilithium2_sign(msg: &[u8], sk: &[u8]) -> (r: Vec<u8>)
    requires
        sk@.len() == 2528,
    ensures
        r@ == dilithium2_signature(sk@, msg@),
        dsa_signed(SecurityLevel::Level1, sk@, msg@, r@),
{
    let sk = dilithium2::SecretKey::from_bytes(sk).expect("length checked by the caller");
    dilithium2::detached_sign(msg, &sk).as_bytes().to_vec()
}

/// `dilithium3::detached_sign` of `msg` with the key that `from_bytes`
/// makes of `sk` (exactly 4000 bytes); the signature has 3293 bytes.
#[verifier::external_body]
fn dilithium3_sign(msg: &[u8], sk: &[u8]) -> (r: Vec<u8>)
    requires
        sk@.len() == 4000,
    ensures
        r@ == dilithium3_signature(sk@, msg@),
        dsa_signed(SecurityLevel::Level3, sk@, msg@, r@),
{
    let sk = dilithium3::SecretKey::from_bytes(sk).expect("length checked by the caller");
    dilithium3::detached_sign(msg, &sk).as_bytes().to_vec()
}

/// `dilithium5::detached_sign` of `msg` with the key that `from_bytes`
/// makes of `sk` (exactly 4864 bytes); the signature has 4595 bytes.
#[verifier::external_body]
fn dilithium5_sign(msg: &[u8], sk: &[u8]) -> (r: Vec<u8>)
    requires
        sk@.len() == 4864,
    ensures
        r@ == dilithium5_signature(sk@, msg@),
        dsa_signed(SecurityLevel::Level5, sk@, msg@, r@),
{
    let sk = dilithium5::SecretKey::from_bytes(sk).expect("length checked by the caller");
    dilithium5::detached_sign(msg, &sk).as_bytes().to_vec()
}

/// `dilithium2::verify_detached_signature` of `sig` on `msg` under `pk`,
/// with `from_bytes` making the key (exactly 1312 bytes) and the detached
/// signature (at most 2420 bytes); `true` when it returns `Ok`. The C
/// verifier rejects every signature that is not exactly 2420 bytes long.
#[verifier::external_body]
fn dilithium2_verify(sig: &[u8], msg: &[u8], pk: &[u8]) -> (r: bool)
    requires
        pk@.len() == 1312,
        sig@.len() <= 2420,
    ensures
        r == dilithium2_accepts(pk@, msg@, sig@),
        sig@.len() != 2420 ==> !r,
{
    let pk = dilithium2::PublicKey::from_bytes(pk).expect("length checked by the caller");
    let sig = dilithium2::DetachedSignature::from_bytes(sig).expect("length checked by the caller");
    dilithium2::verify_detached_signature(&sig, msg, &pk).is_ok()
}

/// `dilithium3::verify_detached_signature`, key of exactly 1952 bytes,
/// signature of at most 3293 bytes (only exactly 3293 can be accepted).
#[verifier::external_body]
fn dilithium3_verify(sig: &[u8], msg: &[u8], pk: &[u8]) -> (r: bool)
    requires
        pk@.len() == 1952,
        sig@.len() <= 3293,
    ensures
        r == dilithium3_accepts(pk@, msg@, sig@),
        sig@.len() != 3293 ==> !r,
{
    let pk = dilithium3::PublicKey::from_bytes(pk).expect("length checked by the caller");
    let sig = dilithium3::DetachedSignature::from_bytes(sig).expect("length checked by the caller");
    dilithium3::verify_detached_signature(&sig, msg, &pk).is_ok()
}

/// `dilithium5::verify_detached_signature`, key of exactly 2592 bytes,
/// signature of at most 4595 bytes (only exactly 4595 can be accepted).
#[verifier::external_body]
fn dilithium5_verify(sig: &[u8], msg: &[u8], pk: &[u8]) -> (r: bool)
    requires
        pk@.len() == 2592,
        sig@.len() <= 4595,
    ensures
        r == dilithium5_accepts(pk@, msg@, sig@),
        sig@.len() != 4595 ==> !r,
{
    let pk = dilithium5::PublicKey::from_bytes(pk).expect("length checked by the caller");
    let sig = dilithium5::DetachedSignature::from_bytes(sig).expect("length checked by the caller");
    dilithium5::verify_detached_signature(&sig, msg, &pk).is_ok()
}

// ── Error texts ───────────────────────────────────────────────────────────────

/// The error text for a public key of the wrong length.
pub open spec fn dsa_bad_public_key_text(level: SecurityLevel) -> Seq<char> {
    match level {
        SecurityLevel::Level1 => "Invalid Dilithium2 public key"@,
        SecurityLevel::Level3 => "Invalid Dilithium3 public key"@,
        SecurityLevel::Level5 => "Invalid Dilithium5 public key"@,
    }
}

fn bad_public_key(level: SecurityLevel) -> (e: PqcError)
    ensures
        invalid_key_with(e, dsa_bad_public_key_text(level)),
{
    match level {
        SecurityLevel::Level1 => PqcError::InvalidKey(String::from_str("Invalid Dilithium2 public key")),
        SecurityLevel::Level3 => PqcError::InvalidKey(String::from_str("Invalid Dilithium3 public key")),
        SecurityLevel::Level5 => PqcError::InvalidKey(String::from_str("Invalid Dilithium5 public key")),
    }
}

/// The error text for a secret key of the wrong length.
pub open spec fn dsa_bad_secret_key_text(level: SecurityLevel) -> Seq<char> {
    match level {
        SecurityLevel::Level1 => "Invalid Dilithium2 secret key"@,
        SecurityLevel::Level3 => "Invalid Dilithium3 secret key"@,
        SecurityLevel::Level5 => "Invalid Dilithium5 secret key"@,
    }
}

/// The error text for a signature that is too long.
pub open spec fn dsa_bad_signature_text(level: SecurityLevel) -> Seq<char> {
    match level {
        SecurityLevel::Level1 => "Invalid Dilithium2 signature"@,
        SecurityLevel::Level3 => "Invalid Dilithium3 signature"@,
        SecurityLevel::Level5 => "Invalid Dilithium5 signature"@,
    }
}

fn bad_signature(level: SecurityLevel) -> (e: PqcError)
    ensures
        invalid_signature_with(e, dsa_bad_signature_text(level)),
{
    match level {
        SecurityLevel::Level1 => PqcError::InvalidSignature(String::from_str("Invalid Dilithium2 signature")),
        SecurityLevel::Level3 => PqcError::InvalidSignature(String::from_str("Invalid Dilithium3 signature")),
        SecurityLevel::Level5 => PqcError::InvalidSignature(String::from_str("Invalid Dilithium5 signature")),
    }
}

// ── Typed public key ──────────────────────────────────────────────────────────

/// A typed DSA verification key. Carries its security level.
pub struct DsaPublicKey {
    level: SecurityLevel,
    bytes: Vec<u8>,
}

impl View for DsaPublicKey {
    /// The level and the key bytes.
    type V = (SecurityLevel, Seq<u8>);

    closed spec fn view(&self) -> (SecurityLevel, Seq<u8>) {
        (self.level, self.bytes@)
    }
}

/// A verification key's bytes have the length of its level's Dilithium
/// variant.
pub open spec fn dsa_public_key_ok(pk: (SecurityLevel, Seq<u8>)) -> bool {
    pk.1.len() == dsa_sizes(pk.0).public_key
}

impl Clone for DsaPublicKey {
    /// A copy of the key: same level, same bytes.
    fn clone(&self) -> (r: Self)
        ensures
            r@ == self@,
    {
        proof {
            use_type_invariant(self);
        }
        DsaPublicKey { level: self.level, bytes: slice_to_vec(self.bytes.as_slice()) }
    }
}

impl DsaPublicKey {
    #[verifier::type_invariant]
    spec fn length_ok(self) -> bool {
        dsa_public_key_ok(self@)
    }

    /// The security level this key was generated for.
    pub fn level(&self) -> (r: SecurityLevel)
        ensures
            r == self@.0,
            dsa_public_key_ok(self@),
    {
        proof {
            use_type_invariant(self);
        }
        self.level
    }

    /// Raw bytes of the verification key.
    pub fn as_bytes(&self) -> (r: &[u8])
        ensures
            r@ == self@.1,
            dsa_public_key_ok(self@),
    {
        proof {
            use_type_invariant(self);
        }
        self.bytes.as_slice()
    }

    /// Hex-encoded verification key.
    pub fn to_hex(&self) -> (r: String)
        ensures
            r@ == hex_encoding(self@.1),
    {
        to_hex(self.bytes.as_slice())
    }

    /// A verification key of `level` made of `bytes`, accepted only when the
    /// bytes have the length that the Dilithium variant's
    /// `PublicKey::from_bytes` accepts.
    pub fn from_validated(level: SecurityLevel, bytes: Vec<u8>) -> (r: Result<DsaPublicKey>)
        ensures
            match r {
                Ok(k) => bytes@.len() == dsa_sizes(level).public_key && k@ == (level, bytes@),
                Err(e) => bytes@.len() != dsa_sizes(level).public_key
                    && invalid_key_with(e, dsa_bad_public_key_text(level)),
            },
    {
        if bytes.len() != sizes_of(level).public_key {
            return Err(bad_public_key(level));
        }
        Ok(DsaPublicKey { level, bytes })
    }
}

// ── Key pair ──────────────────────────────────────────────────────────────────

/// Key bytes of the lengths that the level's Dilithium variant uses.
pub open spec fn dsa_key_lengths_ok(kp: (SecurityLevel, Seq<u8>, Seq<u8>)) -> bool {
    &&& kp.1.len() == dsa_sizes(kp.0).public_key
    &&& kp.2.len() == dsa_sizes(kp.0).private_key
}

/// Whether a key pair's halves were generated together.
pub open spec fn dsa_matched(kp: (SecurityLevel, Seq<u8>, Seq<u8>)) -> bool {
    dsa_key_pair(kp.0, kp.1, kp.2)
}

/// Whether verifying `sig` on `msg` under the key `pk` succeeds: the key
/// has its level's length, the signature is no longer than the level's
/// signature length, and the level's verification accepts it.
pub open spec fn dsa_verifies(pk: (SecurityLevel, Seq<u8>), msg: Seq<u8>, sig: Seq<u8>) -> bool {
    &&& pk.1.len() == dsa_sizes(pk.0).public_key
    &&& sig.len() <= dsa_sizes(pk.0).signature
    &&& dsa_accepts(pk.0, pk.1, msg, sig)
}

/// A DSA key pair. The private signing key is automatically wiped from memory on drop.
pub struct DsaKeyPair {
    level: SecurityLevel,
    pk_bytes: Vec<u8>,
    sk_bytes: SecretBytes,
}

impl View for DsaKeyPair {
    /// The level, the public key bytes and the secret key bytes.
    type V = (SecurityLevel, Seq<u8>, Seq<u8>);

    closed spec fn view(&self) -> (SecurityLevel, Seq<u8>, Seq<u8>) {
        (self.level, self.pk_bytes@, self.sk_bytes@)
    }
}

impl DsaKeyPair {
    #[verifier::type_invariant]
    spec fn lengths_ok(self) -> bool {
        dsa_key_lengths_ok(self@)
    }

    /// Generate a fresh signing key pair using OS entropy.
    pub fn generate(level: SecurityLevel) -> (r: Result<Self>)
        ensures
            r matches Ok(kp) && kp@.0 == level && dsa_matched(kp@) && dsa_key_lengths_ok(kp@),
    {
        let (pk_bytes, sk) = match level {
            SecurityLevel::Level1 => dilithium2_keypair(),
            SecurityLevel::Level3 => dilithium3_keypair(),
            SecurityLevel::Level5 => dilithium5_keypair(),
        };
        let sk_bytes = SecretBytes::new(sk);
        Ok(DsaKeyPair { level, pk_bytes, sk_bytes })
    }

    /// A key pair of `level` made of the given key bytes, accepted only when
    /// both have the lengths that the Dilithium variant's `from_bytes` accepts.
    pub fn from_bytes(level: SecurityLevel, public_key: &[u8], secret_key: &[u8]) -> (r: Result<Self>)
        ensures
            match r {
                Ok(kp) => kp@ == (level, public_key@, secret_key@)
                    && dsa_key_lengths_ok((level, public_key@, secret_key@)),
                Err(e) => !dsa_key_lengths_ok((level, public_key@, secret_key@)) && if public_key@.len()
                    != dsa_sizes(level).public_key {
                    invalid_key_with(e, dsa_bad_public_key_text(level))
                } else {
                    invalid_key_with(e, dsa_bad_secret_key_text(level))
                },
            },
    {
        let sizes = sizes_of(level);
        if public_key.len() != sizes.public_key {
            return Err(bad_public_key(level));
        }
        if secret_key.len() != sizes.private_key {
            return Err(match level {
                SecurityLevel::Level1 => PqcError::InvalidKey(String::from_str("Invalid Dilithium2 secret key")),
                SecurityLevel::Level3 => PqcError::InvalidKey(String::from_str("Invalid Dilithium3 secret key")),
                SecurityLevel::Level5 => PqcError::InvalidKey(String::from_str("Invalid Dilithium5 secret key")),
            });
        }
        Ok(DsaKeyPair {
            level,
            pk_bytes: slice_to_vec(public_key),
            sk_bytes: SecretBytes::new(slice_to_vec(secret_key)),
        })
    }

    /// Exports the key bytes (level, public key, secret key). Never fails.
    pub fn export(&self) -> (r: Result<DsaKeyData>)
        ensures
            r matches Ok(d) && d@ == self@,
            dsa_key_lengths_ok(self@),
    {
        proof {
            use_type_invariant(self);
        }
        Ok(DsaKeyData::new(
            self.level,
            slice_to_vec(self.pk_bytes.as_slice()),
            SecretBytes::new(slice_to_vec(self.sk_bytes.as_slice())),
        ))
    }

    /// Returns the security level.
    pub fn security_level(&self) -> (r: SecurityLevel)
        ensures
            r == self@.0,
    {
        self.level
    }

    /// Returns the typed public verification key — safe to distribute.
    pub fn public_key(&self) -> (r: DsaPublicKey)
        ensures
            r@ == (self@.0, self@.1),
            dsa_public_key_ok(r@),
    {
        proof {
            use_type_invariant(self);
        }
        DsaPublicKey { level: self.level, bytes: slice_to_vec(self.pk_bytes.as_slice()) }
    }

    /// Sign a message. The signature is held in a buffer that is wiped from
    /// memory on drop. Signing never fails.
    pub fn sign(&self, message: &[u8]) -> (r: Result<SecretBytes>)
        ensures
            r matches Ok(sig) && dsa_signed(self@.0, self@.2, message@, sig@),
    {
        proof {
            use_type_invariant(self);
        }
        let sk = self.sk_bytes.as_slice();
        let sig = match self.level {
            SecurityLevel::Level1 => dilithium2_sign(message, sk),
            SecurityLevel::Level3 => dilithium3_sign(message, sk),
            SecurityLevel::Level5 => dilithium5_sign(message, sk),
        };
        Ok(SecretBytes::new(sig))
    }

    /// Verify a signature using this key pair's own public key.
    pub fn verify(&self, message: &[u8], signature: &[u8]) -> (r: Result<()>)
        ensures
            r is Ok <==> dsa_verifies((self@.0, self@.1), message@, signature@),
            r matches Err(e) ==> if signature@.len() > dsa_sizes(self@.0).signature {
                invalid_signature_with(e, dsa_bad_signature_text(self@.0))
            } else {
                e is VerificationFailed
            },
    {
        proof {
            use_type_invariant(self);
        }
        Self::verify_with_typed_key(&self.public_key(), message, signature)
    }

    /// Verify a signature using a typed public key.
    ///
    /// Fails with `InvalidSignature` when the signature is longer than the
    /// level's signature length, and with `VerificationFailed` when the
    /// signature does not verify.
    pub fn verify_with_typed_key(pub_key: &DsaPublicKey, message: &[u8], signature: &[u8]) -> (r: Result<()>)
        ensures
            r is Ok <==> dsa_verifies(pub_key@, message@, signature@),
            r matches Err(e) ==> if signature@.len() > dsa_sizes(pub_key@.0).signature {
                invalid_signature_with(e, dsa_bad_signature_text(pub_key@.0))
            } else {
                e is VerificationFailed
            },
    {
        proof {
            use_type_invariant(pub_key);
        }
        let level = pub_key.level;
        let pk = pub_key.bytes.as_slice();
        let sizes = sizes_of(level);
        if signature.len() > sizes.signature {
            return Err(bad_signature(level));
        }
        let ok = match level {
            SecurityLevel::Level1 => dilithium2_verify(signature, message, pk),
            SecurityLevel::Level3 => dilithium3_verify(signature, message, pk),
            SecurityLevel::Level5 => dilithium5_verify(signature, message, pk),
        };
        if ok {
            Ok(())
        } else {
            Err(PqcError::VerificationFailed)
        }
    }

    /// Key and signature sizes for this security level.
    pub fn key_sizes(&self) -> (r: DsaSizes)
        ensures
            r == dsa_sizes(self@.0),
    {
        sizes_of(self.level)
    }
}

/// A signature made with a key pair whose halves were generated together
/// verifies under that key pair's public key.
pub proof fn lemma_sign_then_verify(kp: (SecurityLevel, Seq<u8>, Seq<u8>), msg: Seq<u8>, sig: Seq<u8>)
    requires
        dsa_key_lengths_ok(kp),
        dsa_matched(kp),
        dsa_signed(kp.0, kp.2, msg, sig),
    ensures
        dsa_verifies((kp.0, kp.1), msg, sig),
{
    assert(dsa_accepts(kp.0, kp.1, msg, sig));
}

/// Verification succeeds exactly when the key has its level's length, the
/// signature is no longer than the level's signature length, and the
/// level's Dilithium verifier accepts the key, message and signature:
/// Dilithium2 at Level1, Dilithium3 at Level3, Dilithium5 at Level5. So a
/// signature verifies on another message, or under another key, only where
/// that verifier accepts it.
pub proof fn lemma_verify_is_dilithium(pk: (SecurityLevel, Seq<u8>), msg: Seq<u8>, sig: Seq<u8>)
    ensures
        dsa_verifies(pk, msg, sig) <==> match pk.0 {
            SecurityLevel::Level1 => pk.1.len() == 1312 && sig.len() <= 2420 && dilithium2_accepts(pk.1, msg, sig),
            SecurityLevel::Level3 => pk.1.len() == 1952 && sig.len() <= 3293 && dilithium3_accepts(pk.1, msg, sig),
            SecurityLevel::Level5 => pk.1.len() == 2592 && sig.len() <= 4595 && dilithium5_accepts(pk.1, msg, sig),
        },
{
}

/// Signing gives the level's Dilithium signature of the message under the
/// secret key, of that variant's signature length: Dilithium2 (2420 bytes)
/// at Level1, Dilithium3 (3293) at Level3, Dilithium5 (4595) at Level5.
pub proof fn lemma_sign_is_dilithium(level: SecurityLevel, sk: Seq<u8>, msg: Seq<u8>, sig: Seq<u8>)
    requires
        dsa_signed(level, sk, msg, sig),
    ensures
        match level {
            SecurityLevel::Level1 => sig == dilithium2_signature(sk, msg) && sig.len() == 2420,
            SecurityLevel::Level3 => sig == dilithium3_signature(sk, msg) && sig.len() == 3293,
            SecurityLevel::Level5 => sig == dilithium5_signature(sk, msg) && sig.len() == 4595,
        },
{
}

} // verus!
