//! Key serialisation — export and import key material securely.
//!
//! Use `EncryptedKeyBundle` to persist key pairs. Keys are encrypted with
//! AES-256-GCM using a key derived from a passphrase via Argon2id
//! (m = 64 MiB, t = 3, p = 4).
#![allow(unused_imports)]

use crate::dsa::{dsa_bad_public_key_text, dsa_bad_secret_key_text, dsa_key_lengths_ok, dsa_sizes, DsaKeyPair};
use crate::error::{invalid_key_with, other_with, PqcError, Result};
use crate::kem::{kem_bad_public_key_text, kem_bad_secret_key_text, kem_key_lengths_ok, kem_sizes, KemKeyPair};
use crate::secret::SecretBytes;
use crate::text::{decimal_text, push_decimal};
use crate::utils::{from_hex, hex_decoding, hex_encoding, lemma_hex_roundtrip, str_eq, to_hex};
use aes_gcm::aead::{Aead, KeyInit};
use aes_gcm::{Aes256Gcm, Key, Nonce};
use argon2::{Algorithm, Argon2, Params, Version};
use rand::RngCore;
use crate::SecurityLevel;
use vstd::prelude::*;
use vstd::slice::{slice_subrange, slice_to_vec};
use vstd::string::*;

verus! {

// ── Raw key export ────────────────────────────────────────────────────────────

/// Exported bytes of a KEM key pair.
///
/// The secret key field is private — access via `into_keypair()` only.
pub struct KemKeyData {
    pub level: SecurityLevel,
    pub public_key: Vec<u8>,
    secret_key: SecretBytes,
}

impl View for KemKeyData {
    /// The level, the public key bytes and the secret key bytes.
    type V = (SecurityLevel, Seq<u8>, Seq<u8>);

    closed spec fn view(&self) -> (SecurityLevel, Seq<u8>, Seq<u8>) {
        (self.level, self.public_key@, self.secret_key@)
    }
}

impl KemKeyData {
    pub(crate) fn new(level: SecurityLevel, public_key: Vec<u8>, secret_key: SecretBytes) -> (r: Self)
        ensures
            r@ == (level, public_key@, secret_key@),
    {
        KemKeyData { level, public_key, secret_key }
    }

    /// Restore a `KemKeyPair` from exported key data; fails with
    /// `InvalidKey` when a key does not have its level's length.
    pub fn into_keypair(self) -> (r: Result<KemKeyPair>)
        ensures
            match r {
                Ok(kp) => kp@ == self@ && kem_key_lengths_ok(self@),
                Err(e) => !kem_key_lengths_ok(self@) && if self@.1.len() != kem_sizes(self@.0).public_key {
                    invalid_key_with(e, kem_bad_public_key_text(self@.0))
                } else {
                    invalid_key_with(e, kem_bad_secret_key_text(self@.0))
                },
            },
    {
        KemKeyPair::from_bytes(self.level, self.public_key.as_slice(), self.secret_key.as_slice())
    }
}

/// Exported bytes of a DSA key pair.
///
/// The secret key field is private — access via `into_keypair()` only.
pub struct DsaKeyData {
    pub level: SecurityLevel,
    pub public_key: Vec<u8>,
    secret_key: SecretBytes,
}

impl View for DsaKeyData {
    /// The level, the public key bytes and the secret key bytes.
    type V = (SecurityLevel, Seq<u8>, Seq<u8>);

    closed spec fn view(&self) -> (SecurityLevel, Seq<u8>, Seq<u8>) {
        (self.level, self.public_key@, self.secret_key@)
    }
}

impl DsaKeyData {
    pub(crate) fn new(level: SecurityLevel, public_key: Vec<u8>, secret_key: SecretBytes) -> (r: Self)
        ensures
            r@ == (level, public_key@, secret_key@),
    {
        DsaKeyData { level, public_key, secret_key }
    }

    /// Restore a `DsaKeyPair` from exported key data; fails with
    /// `InvalidKey` when a key does not have its level's length.
    pub fn into_keypair(self) -> (r: Result<DsaKeyPair>)
        ensures
            match r {
                Ok(kp) => kp@ == self@ && dsa_key_lengths_ok(self@),
                Err(e) => !dsa_key_lengths_ok(self@) && if self@.1.len() != dsa_sizes(self@.0).public_key {
                    invalid_key_with(e, dsa_bad_public_key_text(self@.0))
                } else {
                    invalid_key_with(e, dsa_bad_secret_key_text(self@.0))
                },
            },
    {
        DsaKeyPair::from_bytes(self.level, self.public_key.as_slice(), self.secret_key.as_slice())
    }
}

// ── Level numbers ─────────────────────────────────────────────────────────────

/// The number that stands for a level in a bundle: 1, 3 or 5.
pub open spec fn level_number(level: SecurityLevel) -> u8 {
    match level {
        SecurityLevel::Level1 => 1,
        SecurityLevel::Level3 => 3,
        SecurityLevel::Level5 => 5,
    }
}

/// The level that a bundle's level number stands for, if any.
pub open spec fn level_of_number(n: u8) -> Option<SecurityLevel> {
    if n == 1 {
        Some(SecurityLevel::Level1)
    } else if n == 3 {
        Some(SecurityLevel::Level3)
    } else if n == 5 {
        Some(SecurityLevel::Level5)
    } else {
        None
    }
}

/// Reading back the number of a level gives the level, and a number that
/// names a level is that level's number.
pub proof fn lemma_level_number_roundtrip(level: SecurityLevel, n: u8)
    ensures
        level_of_number(level_number(level)) == Some(level),
        level_of_number(n) == Some(level) ==> level_number(level) == n,
{
}

/// The error text for a level number that stands for no level.
pub open spec fn unknown_level_text(n: u8) -> Seq<char> {
    "Unknown security level: "@ + decimal_text(n as nat)
}

/// The number that stands for `level` in a bundle.
pub fn level_to_u8(level: SecurityLevel) -> (r: u8)
    ensures
        r == level_number(level),
{
    match level {
        SecurityLevel::Level1 => 1,
        SecurityLevel::Level3 => 3,
        SecurityLevel::Level5 => 5,
    }
}

/// The level that the number `n` stands for, or an error for any other number.
pub fn u8_to_level(n: u8) -> (r: Result<SecurityLevel>)
    ensures
        match r {
            Ok(level) => level_of_number(n) == Some(level),
            Err(e) => level_of_number(n) is None && other_with(e, unknown_level_text(n)),
        },
{
    match n {
        1 => Ok(SecurityLevel::Level1),
        3 => Ok(SecurityLevel::Level3),
        5 => Ok(SecurityLevel::Level5),
        _ => {
            let mut m = String::from_str("Unknown security level: ");
            push_decimal(&mut m, n as u64);
            Err(PqcError::Other(m))
        },
    }
}

// ── Key plaintext ─────────────────────────────────────────────────────────────

/// The four little-endian bytes of `n`.
pub open spec fn le32_bytes(n: u32) -> Seq<u8> {
    seq![
        (n & 0xff) as u8,
        ((n >> 8u32) & 0xff) as u8,
        ((n >> 16u32) & 0xff) as u8,
        ((n >> 24u32) & 0xff) as u8,
    ]
}

/// The number that four little-endian bytes stand for.
pub open spec fn le32_value(b0: u8, b1: u8, b2: u8, b3: u8) -> u32 {
    (b0 as u32) | ((b1 as u32) << 8u32) | ((b2 as u32) << 16u32) | ((b3 as u32) << 24u32)
}

proof fn lemma_le32_roundtrip(n: u32)
    ensures
        le32_value(le32_bytes(n)[0], le32_bytes(n)[1], le32_bytes(n)[2], le32_bytes(n)[3]) == n,
{
    let b0 = (n & 0xff) as u8;
    let b1 = ((n >> 8u32) & 0xff) as u8;
    let b2 = ((n >> 16u32) & 0xff) as u8;
    let b3 = ((n >> 24u32) & 0xff) as u8;
    assert((b0 as u32) | ((b1 as u32) << 8u32) | ((b2 as u32) << 16u32) | ((b3 as u32) << 24u32) == n)
        by (bit_vector)
        requires
            b0 == (n & 0xff) as u8,
            b1 == ((n >> 8u32) & 0xff) as u8,
            b2 == ((n >> 16u32) & 0xff) as u8,
            b3 == ((n >> 24u32) & 0xff) as u8,
    ;
}

/// The plaintext that a bundle encrypts: the public key's length as four
/// little-endian bytes, the public key, then the secret key.
pub open spec fn key_plaintext(pk: Seq<u8>, sk: Seq<u8>) -> Seq<u8>
    recommends
        pk.len() <= u32::MAX,
{
    le32_bytes(pk.len() as u32) + pk + sk
}

/// Why a key plaintext cannot be read.
pub enum PlaintextFault {
    /// Fewer than four bytes.
    Truncated,
    /// Fewer bytes than the length prefix announces.
    TruncatedPublicKey,
}

/// The public and secret key bytes that a key plaintext holds, or why it
/// holds none.
pub open spec fn read_key_plaintext(data: Seq<u8>) -> core::result::Result<(Seq<u8>, Seq<u8>), PlaintextFault> {
    if data.len() < 4 {
        Err(PlaintextFault::Truncated)
    } else {
        let n = le32_value(data[0], data[1], data[2], data[3]) as int;
        if data.len() < 4 + n {
            Err(PlaintextFault::TruncatedPublicKey)
        } else {
            Ok((data.subrange(4, 4 + n), data.subrange(4 + n, data.len() as int)))
        }
    }
}

/// The error texts for unreadable key plaintexts.
pub open spec fn plaintext_fault_text(f: PlaintextFault) -> Seq<char> {
    match f {
        PlaintextFault::Truncated => "Truncated key data"@,
        PlaintextFault::TruncatedPublicKey => "Truncated public key"@,
    }
}

/// Reading back a key plaintext gives the keys it was made of.
pub proof fn lemma_key_plaintext_roundtrip(pk: Seq<u8>, sk: Seq<u8>)
    requires
        pk.len() <= u32::MAX,
    ensures
        read_key_plaintext(key_plaintext(pk, sk)) == Ok::<(Seq<u8>, Seq<u8>), PlaintextFault>((pk, sk)),
{
    let n = pk.len() as u32;
    let data = key_plaintext(pk, sk);
    lemma_le32_roundtrip(n);
    assert(data[0] == le32_bytes(n)[0]);
    assert(data[1] == le32_bytes(n)[1]);
    assert(data[2] == le32_bytes(n)[2]);
    assert(data[3] == le32_bytes(n)[3]);
    assert(data.subrange(4, 4 + pk.len() as int) =~= pk);
    assert(data.subrange(4 + pk.len() as int, data.len() as int) =~= sk);
}

/// Builds the key plaintext of `pk` and `sk` in a wiped-on-drop buffer.
fn encode_key_plaintext(pk: &[u8], sk: &[u8]) -> (r: SecretBytes)
    requires
        pk@.len() <= u32::MAX,
    ensures
        r@ == key_plaintext(pk@, sk@),
{
    let n = pk.len() as u32;
    let mut buf: Vec<u8> = Vec::new();
    buf.push((n & 0xff) as u8);
    buf.push(((n >> 8) & 0xff) as u8);
    buf.push(((n >> 16) & 0xff) as u8);
    buf.push(((n >> 24) & 0xff) as u8);
    let mut i: usize = 0;
    while i < pk.len()
        invariant
            i <= pk@.len(),
            buf@ == le32_bytes(n) + pk@.subrange(0, i as int),
        decreases pk@.len() - i,
    {
        buf.push(pk[i]);
        i = i + 1;
        assert(pk@.subrange(0, i as int) =~= pk@.subrange(0, i - 1) + seq![pk@[i - 1]]);
    }
    let mut j: usize = 0;
    while j < sk.len()
        invariant
            j <= sk@.len(),
            i == pk@.len(),
            buf@ == le32_bytes(n) + pk@ + sk@.subrange(0, j as int),
        decreases sk@.len() - j,
    {
        buf.push(sk[j]);
        j = j + 1;
        assert(sk@.subrange(0, j as int) =~= sk@.subrange(0, j - 1) + seq![sk@[j - 1]]);
    }
    assert(pk@.subrange(0, pk@.len() as int) =~= pk@);
    assert(sk@.subrange(0, sk@.len() as int) =~= sk@);
    SecretBytes::new(buf)
}

/// Splits a key plaintext into its public and secret key bytes.
fn decode_key_plaintext(data: &[u8]) -> (r: Result<(Vec<u8>, SecretBytes)>)
    ensures
        match r {
            Ok((pk, sk)) => read_key_plaintext(data@) == Ok::<(Seq<u8>, Seq<u8>), PlaintextFault>((pk@, sk@)),
            Err(e) => read_key_plaintext(data@) matches Err(f) && other_with(e, plaintext_fault_text(f)),
        },
{
    if data.len() < 4 {
        return Err(PqcError::Other(String::from_str("Truncated key data")));
    }
    let n: u32 = (data[0] as u32) | ((data[1] as u32) << 8) | ((data[2] as u32) << 16) | ((data[3] as u32) << 24);
    let pk_len = n as usize;
    if data.len() - 4 < pk_len {
        return Err(PqcError::Other(String::from_str("Truncated public key")));
    }
    let pk = slice_to_vec(slice_subrange(data, 4, 4 + pk_len));
    let sk = SecretBytes::new(slice_to_vec(slice_subrange(data, 4 + pk_len, data.len())));
    Ok((pk, sk))
}


// ── Outside primitives ────────────────────────────────────────────────────────

/// `n` bytes from `rand::thread_rng()` (`RngCore::fill_bytes` on a zeroed
/// buffer). Nothing is claimed of the values.
#[verifier::external_body]
fn random_bytes(n: usize) -> (r: Vec<u8>)
    ensures
        r@.len() == n,
{
    let mut buf = vec![0u8; n];
    rand::thread_rng().fill_bytes(&mut buf);
    buf
}

/// The `out_len` bytes that Argon2id (version 0x13) derives from a password
/// and salt with memory cost `m`, time cost `t` and parallelism `p`.
pub uninterp spec fn argon2id_output(m: u32, t: u32, p: u32, out_len: usize, pwd: Seq<u8>, salt: Seq<u8>) -> Seq<u8>;

#[verifier::external_type_specification]
#[verifier::external_body]
pub struct ExArgon2Error(argon2::Error);

/// `Argon2::hash_password_into` with `Algorithm::Argon2id`,
/// `Version::V0x13` and `Params::new(m, t, p, Some(out_len))` into a fresh
/// buffer of `out_len` bytes. With parameters that `Params::new` accepts (the
/// `requires`), the source fails only for a password longer than
/// 2^32 - 1 bytes or a salt shorter than 8 or longer than 2^32 - 1 bytes.
#[verifier::external_body]
fn argon2id_hash(m: u32, t: u32, p: u32, out_len: usize, pwd: &[u8], salt: &[u8]) -> (r: core::result::Result<Vec<u8>, argon2::Error>)
    requires
        8 <= m,
        8 * p <= m,
        1 <= t,
        1 <= p <= 0xFF_FFFF,
        4 <= out_len <= 0xFFFF_FFFF,
    ensures
        r is Ok <==> (pwd@.len() <= 0xFFFF_FFFF && 8 <= salt@.len() <= 0xFFFF_FFFF),
        r matches Ok(k) ==> k@ == argon2id_output(m, t, p, out_len, pwd@, salt@) && k@.len() == out_len,
{
    let params = Params::new(m, t, p, Some(out_len))?;
    let argon2 = Argon2::new(Algorithm::Argon2id, Version::V0x13, params);
    let mut key = vec![0u8; out_len];
    argon2.hash_password_into(pwd, salt, &mut key)?;
    Ok(key)
}

/// The ciphertext (with its 16-byte tag appended) that AES-256-GCM makes of
/// a plaintext under a 32-byte key and a 12-byte nonce, with no associated data.
pub uninterp spec fn aes256gcm_ciphertext(key: Seq<u8>, nonce: Seq<u8>, pt: Seq<u8>) -> Seq<u8>;

/// The plaintext that AES-256-GCM recovers from a ciphertext with tag, or
/// `None` when the tag does not authenticate it.
pub uninterp spec fn aes256gcm_plaintext(key: Seq<u8>, nonce: Seq<u8>, ct: Seq<u8>) -> Option<Seq<u8>>;

#[verifier::external_type_specification]
#[verifier::external_body]
pub struct ExAeadError(aes_gcm::Error);

/// `Aead::encrypt` of `Aes256Gcm::new(Key::from_slice(key))` with
/// `Nonce::from_slice(nonce)` (the `requires` keeps both `from_slice` calls
/// from panicking). It fails exactly for plaintexts longer than 2^36 bytes.
/// That decryption with the same key and nonce gives the plaintext back is
/// the AEAD's defining property.
#[verifier::external_body]
fn aes256gcm_encrypt(key: &[u8], nonce: &[u8], pt: &[u8]) -> (r: core::result::Result<Vec<u8>, aes_gcm::Error>)
    requires
        key@.len() == 32,
        nonce@.len() == 12,
    ensures
        r is Ok <==> pt@.len() <= 0x10_0000_0000,
        r matches Ok(c) ==> c@ == aes256gcm_ciphertext(key@, nonce@, pt@)
            && aes256gcm_plaintext(key@, nonce@, c@) == Some(pt@),
{
    let cipher = Aes256Gcm::new(Key::<Aes256Gcm>::from_slice(key));
    cipher.encrypt(Nonce::from_slice(nonce), pt)
}

/// `Aead::decrypt` of `Aes256Gcm::new(Key::from_slice(key))` with
/// `Nonce::from_slice(nonce)`: the plaintext when the tag authenticates the
/// ciphertext, else the crate's error.
#[verifier::external_body]
fn aes256gcm_decrypt(key: &[u8], nonce: &[u8], ct: &[u8]) -> (r: core::result::Result<Vec<u8>, aes_gcm::Error>)
    requires
        key@.len() == 32,
        nonce@.len() == 12,
    ensures
        match r {
            Ok(p) => aes256gcm_plaintext(key@, nonce@, ct@) == Some(p@),
            Err(_) => aes256gcm_plaintext(key@, nonce@, ct@) is None,
        },
{
    let cipher = Aes256Gcm::new(Key::<Aes256Gcm>::from_slice(key));
    cipher.decrypt(Nonce::from_slice(nonce), ct)
}

// ── Key derivation ────────────────────────────────────────────────────────────

/// Argon2id memory cost in KiB (64 MiB), iterations and parallelism.
const ARGON2_M_COST: u32 = 65536;
const ARGON2_T_COST: u32 = 3;
const ARGON2_P_COST: u32 = 4;

/// Whether Argon2id derives a key from this passphrase and salt.
pub open spec fn kdf_accepts(pwd: Seq<u8>, salt: Seq<u8>) -> bool {
    pwd.len() <= 0xFFFF_FFFF && 8 <= salt.len() <= 0xFFFF_FFFF
}

/// The 32-byte AES key derived from a passphrase and salt.
pub open spec fn bundle_key(pwd: Seq<u8>, salt: Seq<u8>) -> Seq<u8> {
    argon2id_output(65536, 3, 4, 32, pwd, salt)
}

fn derive_key(passphrase: &[u8], salt: &[u8]) -> (r: Result<SecretBytes>)
    ensures
        match r {
            Ok(k) => kdf_accepts(passphrase@, salt@) && k@ == bundle_key(passphrase@, salt@)
                && k@.len() == 32,
            Err(e) => !kdf_accepts(passphrase@, salt@) && other_with(e, "Argon2 KDF failed"@),
        },
{
    match argon2id_hash(ARGON2_M_COST, ARGON2_T_COST, ARGON2_P_COST, 32, passphrase, salt) {
        Ok(k) => Ok(SecretBytes::new(k)),
        Err(_) => Err(PqcError::Other(String::from_str("Argon2 KDF failed"))),
    }
}

// ── Encrypted key bundle ──────────────────────────────────────────────────────

/// The fields of a bundle: format version, kind ("kem" or "dsa"), level
/// number, and the hex text of the Argon2id salt, the AES-GCM nonce and the
/// ciphertext.
pub struct BundleModel {
    pub version: u8,
    pub kind: Seq<char>,
    pub level: u8,
    pub salt: Seq<char>,
    pub nonce: Seq<char>,
    pub ciphertext: Seq<char>,
}

/// The bundle format version that this library writes and reads.
pub const BUNDLE_VERSION: u8 = 1;

/// AES-256-GCM encrypted key bundle safe to write to disk.
///
/// Argon2id parameters: memory 64 MB, iterations 3, parallelism 4.
pub struct EncryptedKeyBundle {
    version: u8,
    kind: String,
    level: u8,
    salt: String,
    nonce: String,
    ciphertext: String,
}

impl View for EncryptedKeyBundle {
    type V = BundleModel;

    closed spec fn view(&self) -> BundleModel {
        BundleModel {
            version: self.version,
            kind: self.kind@,
            level: self.level,
            salt: self.salt@,
            nonce: self.nonce@,
            ciphertext: self.ciphertext@,
        }
    }
}

/// The kind text of KEM (`true`) or DSA (`false`) bundles.
pub open spec fn kind_text(is_kem: bool) -> Seq<char> {
    if is_kem {
        "kem"@
    } else {
        "dsa"@
    }
}

/// Key bytes of the lengths that the KEM (`true`) or DSA (`false`) level uses.
pub open spec fn key_lengths_ok(is_kem: bool, kp: (SecurityLevel, Seq<u8>, Seq<u8>)) -> bool {
    if is_kem {
        kem_key_lengths_ok(kp)
    } else {
        dsa_key_lengths_ok(kp)
    }
}

/// The bundle that sealing the key pair `kp` as the given kind with
/// passphrase `pwd` gives for a given salt and nonce: the hex text of both,
/// and of the AES-256-GCM encryption of the key plaintext of `kp` under the
/// key derived from `pwd` and the salt.
pub open spec fn bundle_of(kp: (SecurityLevel, Seq<u8>, Seq<u8>), pwd: Seq<u8>, is_kem: bool, salt: Seq<u8>, nonce: Seq<u8>) -> BundleModel {
    BundleModel {
        version: 1,
        kind: kind_text(is_kem),
        level: level_number(kp.0),
        salt: hex_encoding(salt),
        nonce: hex_encoding(nonce),
        ciphertext: hex_encoding(
            aes256gcm_ciphertext(bundle_key(pwd, salt), nonce, key_plaintext(kp.1, kp.2)),
        ),
    }
}

/// `b` is what sealing `kp` with `pwd`, `salt` and `nonce` gives: the key
/// derivation accepts the passphrase and salt, `b` is `bundle_of` them, and
/// its ciphertext decrypts back to the key plaintext.
pub open spec fn sealed_with(kp: (SecurityLevel, Seq<u8>, Seq<u8>), pwd: Seq<u8>, is_kem: bool, salt: Seq<u8>, nonce: Seq<u8>, b: BundleModel) -> bool {
    &&& kdf_accepts(pwd, salt)
    &&& b == bundle_of(kp, pwd, is_kem, salt, nonce)
    &&& aes256gcm_plaintext(
        bundle_key(pwd, salt),
        nonce,
        aes256gcm_ciphertext(bundle_key(pwd, salt), nonce, key_plaintext(kp.1, kp.2)),
    ) == Some(key_plaintext(kp.1, kp.2))
}

/// `b` is a bundle that sealing the key pair `kp` with passphrase `pwd`
/// gives for some 16-byte salt and 12-byte nonce.
pub open spec fn sealed(kp: (SecurityLevel, Seq<u8>, Seq<u8>), pwd: Seq<u8>, is_kem: bool, b: BundleModel) -> bool {
    exists|salt: Seq<u8>, nonce: Seq<u8>|
        salt.len() == 16 && nonce.len() == 12 && #[trigger] sealed_with(kp, pwd, is_kem, salt, nonce, b)
}

/// Why a bundle cannot be unsealed, in the order the checks are made.
pub enum UnsealFault {
    WrongKind,
    UnsupportedVersion,
    UnknownLevel,
    BadSalt,
    BadNonce,
    BadCiphertext,
    KdfFailed,
    DecryptionFailed,
    Plaintext(PlaintextFault),
    KeyRejected,
}

/// What decrypting a bundle's ciphertext with `pwd` gives: the key
/// plaintext, or the first step that fails.
pub open spec fn decrypt_outcome(b: BundleModel, pwd: Seq<u8>) -> core::result::Result<Seq<u8>, UnsealFault> {
    match hex_decoding(b.salt) {
        None => Err(UnsealFault::BadSalt),
        Some(salt) => match hex_decoding(b.nonce) {
            None => Err(UnsealFault::BadNonce),
            Some(nonce) => match hex_decoding(b.ciphertext) {
                None => Err(UnsealFault::BadCiphertext),
                Some(ct) => if !kdf_accepts(pwd, salt) {
                    Err(UnsealFault::KdfFailed)
                } else {
                    match aes256gcm_plaintext(bundle_key(pwd, salt), nonce, ct) {
                        None => Err(UnsealFault::DecryptionFailed),
                        Some(pt) => Ok(pt),
                    }
                },
            },
        },
    }
}

/// Decrypting panics (AES-GCM's `Nonce::from_slice`) when every earlier step
/// succeeds but the nonce is not 12 bytes long.
pub open spec fn decrypt_panics(b: BundleModel, pwd: Seq<u8>) -> bool {
    match (hex_decoding(b.salt), hex_decoding(b.nonce), hex_decoding(b.ciphertext)) {
        (Some(salt), Some(nonce), Some(ct)) => kdf_accepts(pwd, salt) && nonce.len() != 12,
        _ => false,
    }
}

/// The key pair (level, public key, secret key) that unsealing a bundle of
/// the given kind with `pwd` gives, or the first check that fails.
pub open spec fn unseal_outcome(b: BundleModel, pwd: Seq<u8>, is_kem: bool) -> core::result::Result<(SecurityLevel, Seq<u8>, Seq<u8>), UnsealFault> {
    if b.kind != kind_text(is_kem) {
        Err(UnsealFault::WrongKind)
    } else if b.version != 1 {
        Err(UnsealFault::UnsupportedVersion)
    } else {
        match level_of_number(b.level) {
            None => Err(UnsealFault::UnknownLevel),
            Some(level) => match decrypt_outcome(b, pwd) {
                Err(f) => Err(f),
                Ok(pt) => match read_key_plaintext(pt) {
                    Err(f) => Err(UnsealFault::Plaintext(f)),
                    Ok((pk, sk)) => if key_lengths_ok(is_kem, (level, pk, sk)) {
                        Ok((level, pk, sk))
                    } else {
                        Err(UnsealFault::KeyRejected)
                    },
                },
            },
        }
    }
}

/// Unsealing panics when the kind, version and level checks pass and
/// decrypting panics.
pub open spec fn unseal_panics(b: BundleModel, pwd: Seq<u8>, is_kem: bool) -> bool {
    &&& b.kind == kind_text(is_kem)
    &&& b.version == 1
    &&& level_of_number(b.level) is Some
    &&& decrypt_panics(b, pwd)
}

/// The error text for a bundle of the other kind.
pub open spec fn wrong_kind_text(is_kem: bool) -> Seq<char> {
    if is_kem {
        "Bundle is not a KEM key"@
    } else {
        "Bundle is not a DSA key"@
    }
}

/// The error text for an unsupported bundle version.
pub open spec fn bad_version_text(v: u8) -> Seq<char> {
    "Unsupported bundle version: "@ + decimal_text(v as nat) + ". Expected "@ + decimal_text(1) + "."@
}

/// Whether `e` is the error that unsealing reports for `f`.
pub open spec fn unseal_error(e: PqcError, f: UnsealFault, b: BundleModel, is_kem: bool) -> bool {
    match f {
        UnsealFault::WrongKind => other_with(e, wrong_kind_text(is_kem)),
        UnsealFault::UnsupportedVersion => other_with(e, bad_version_text(b.version)),
        UnsealFault::UnknownLevel => other_with(e, unknown_level_text(b.level)),
        UnsealFault::BadSalt => other_with(e, "Invalid salt encoding"@),
        UnsealFault::BadNonce => other_with(e, "Invalid nonce encoding"@),
        UnsealFault::BadCiphertext => other_with(e, "Invalid ciphertext encoding"@),
        UnsealFault::KdfFailed => other_with(e, "Argon2 KDF failed"@),
        UnsealFault::DecryptionFailed => other_with(
            e,
            "Decryption failed — wrong passphrase or corrupted bundle"@,
        ),
        UnsealFault::Plaintext(pf) => other_with(e, plaintext_fault_text(pf)),
        UnsealFault::KeyRejected => e is InvalidKey,
    }
}

/// Encrypts a key plaintext under the key derived from `passphrase` and
/// `salt`, with `nonce`; returns the hex text of the salt, the nonce and the
/// ciphertext.
fn encrypt_with(plaintext: &SecretBytes, passphrase: &[u8], salt: &[u8], nonce: &[u8]) -> (r: Result<(String, String, String)>)
    requires
        plaintext@.len() <= 0x10_0000_0000,
        nonce@.len() == 12,
    ensures
        match r {
            Ok((s, n, c)) => {
                let ct = aes256gcm_ciphertext(bundle_key(passphrase@, salt@), nonce@, plaintext@);
                &&& kdf_accepts(passphrase@, salt@)
                &&& aes256gcm_plaintext(bundle_key(passphrase@, salt@), nonce@, ct) == Some(plaintext@)
                &&& s@ == hex_encoding(salt@)
                &&& n@ == hex_encoding(nonce@)
                &&& c@ == hex_encoding(ct)
            },
            Err(e) => !kdf_accepts(passphrase@, salt@) && other_with(e, "Argon2 KDF failed"@),
        },
{
    let aes_key = derive_key(passphrase, salt)?;
    match aes256gcm_encrypt(aes_key.as_slice(), nonce, plaintext.as_slice()) {
        Ok(ct) => Ok((to_hex(salt), to_hex(nonce), to_hex(ct.as_slice()))),
        Err(_) => Err(PqcError::Other(String::from_str("Encryption failed"))),
    }
}

/// Decrypts a bundle's ciphertext with the key derived from `passphrase`.
fn decrypt(bundle: &EncryptedKeyBundle, passphrase: &[u8]) -> (r: Result<SecretBytes>)
    requires
        !decrypt_panics(bundle@, passphrase@),
    ensures
        match r {
            Ok(pt) => decrypt_outcome(bundle@, passphrase@) == Ok::<Seq<u8>, UnsealFault>(pt@),
            Err(e) => decrypt_outcome(bundle@, passphrase@) matches Err(f)
                && unseal_error(e, f, bundle@, true),
        },
{
    let salt = match from_hex(bundle.salt.as_str()) {
        Ok(v) => v,
        Err(_) => return Err(PqcError::Other(String::from_str("Invalid salt encoding"))),
    };
    let nonce = match from_hex(bundle.nonce.as_str()) {
        Ok(v) => v,
        Err(_) => return Err(PqcError::Other(String::from_str("Invalid nonce encoding"))),
    };
    let ct = match from_hex(bundle.ciphertext.as_str()) {
        Ok(v) => v,
        Err(_) => return Err(PqcError::Other(String::from_str("Invalid ciphertext encoding"))),
    };
    let aes_key = derive_key(passphrase, salt.as_slice())?;
    match aes256gcm_decrypt(aes_key.as_slice(), nonce.as_slice(), ct.as_slice()) {
        Ok(pt) => Ok(SecretBytes::new(pt)),
        Err(_) => Err(PqcError::Other(String::from_str("Decryption failed — wrong passphrase or corrupted bundle"))),
    }
}


// ── Key encoding ──────────────────────────────────────────────────────────────

fn encode_kem_plaintext(data: &KemKeyData) -> (r: SecretBytes)
    requires
        data@.1.len() <= u32::MAX,
    ensures
        r@ == key_plaintext(data@.1, data@.2),
{
    encode_key_plaintext(data.public_key.as_slice(), data.secret_key.as_slice())
}

fn decode_kem_plaintext(level: SecurityLevel, data: &[u8]) -> (r: Result<KemKeyData>)
    ensures
        match r {
            Ok(d) => read_key_plaintext(data@) == Ok::<(Seq<u8>, Seq<u8>), PlaintextFault>((d@.1, d@.2))
                && d@.0 == level,
            Err(e) => read_key_plaintext(data@) matches Err(f) && other_with(e, plaintext_fault_text(f)),
        },
{
    let (pk, sk) = decode_key_plaintext(data)?;
    Ok(KemKeyData::new(level, pk, sk))
}

fn encode_dsa_plaintext(data: &DsaKeyData) -> (r: SecretBytes)
    requires
        data@.1.len() <= u32::MAX,
    ensures
        r@ == key_plaintext(data@.1, data@.2),
{
    encode_key_plaintext(data.public_key.as_slice(), data.secret_key.as_slice())
}

fn decode_dsa_plaintext(level: SecurityLevel, data: &[u8]) -> (r: Result<DsaKeyData>)
    ensures
        match r {
            Ok(d) => read_key_plaintext(data@) == Ok::<(Seq<u8>, Seq<u8>), PlaintextFault>((d@.1, d@.2))
                && d@.0 == level,
            Err(e) => read_key_plaintext(data@) matches Err(f) && other_with(e, plaintext_fault_text(f)),
        },
{
    let (pk, sk) = decode_key_plaintext(data)?;
    Ok(DsaKeyData::new(level, pk, sk))
}

/// The error for a bundle whose version is not the supported one.
fn unsupported_version(v: u8) -> (e: PqcError)
    ensures
        other_with(e, bad_version_text(v)),
{
    let mut m = String::from_str("Unsupported bundle version: ");
    push_decimal(&mut m, v as u64);
    m.append(". Expected ");
    push_decimal(&mut m, BUNDLE_VERSION as u64);
    m.append(".");
    PqcError::Other(m)
}

impl EncryptedKeyBundle {
    /// Seal a KEM key pair into an encrypted bundle under a fresh random
    /// 16-byte salt and 12-byte nonce. Fails only when the passphrase is
    /// longer than Argon2 accepts (2^32 - 1 bytes).
    pub fn seal_kem(kp: &KemKeyPair, passphrase: &[u8]) -> (r: Result<Self>)
        ensures
            match r {
                Ok(b) => sealed(kp@, passphrase@, true, b@),
                Err(e) => passphrase@.len() > 0xFFFF_FFFF && other_with(e, "Argon2 KDF failed"@),
            },
    {
        let salt = random_bytes(16);
        let nonce = random_bytes(12);
        let b = Self::seal_kem_with(kp, passphrase, salt.as_slice(), nonce.as_slice())?;
        assert(sealed_with(kp@, passphrase@, true, salt@, nonce@, b@));
        Ok(b)
    }

    /// Seal a DSA key pair into an encrypted bundle under a fresh random
    /// 16-byte salt and 12-byte nonce. Fails only when the passphrase is
    /// longer than Argon2 accepts (2^32 - 1 bytes).
    pub fn seal_dsa(kp: &DsaKeyPair, passphrase: &[u8]) -> (r: Result<Self>)
        ensures
            match r {
                Ok(b) => sealed(kp@, passphrase@, false, b@),
                Err(e) => passphrase@.len() > 0xFFFF_FFFF && other_with(e, "Argon2 KDF failed"@),
            },
    {
        let salt = random_bytes(16);
        let nonce = random_bytes(12);
        let b = Self::seal_dsa_with(kp, passphrase, salt.as_slice(), nonce.as_slice())?;
        assert(sealed_with(kp@, passphrase@, false, salt@, nonce@, b@));
        Ok(b)
    }

    /// Seal a KEM key pair with the given salt and nonce (what `seal_kem`
    /// does after drawing them). Fails exactly when Argon2 refuses the
    /// passphrase or the salt.
    pub fn seal_kem_with(kp: &KemKeyPair, passphrase: &[u8], salt: &[u8], nonce: &[u8]) -> (r: Result<Self>)
        requires
            nonce@.len() == 12,
        ensures
            match r {
                Ok(b) => sealed_with(kp@, passphrase@, true, salt@, nonce@, b@),
                Err(e) => !kdf_accepts(passphrase@, salt@) && other_with(e, "Argon2 KDF failed"@),
            },
    {
        let data = kp.export()?;
        let plaintext = encode_kem_plaintext(&data);
        let (salt, nonce, ciphertext) = encrypt_with(&plaintext, passphrase, salt, nonce)?;
        Ok(EncryptedKeyBundle {
            version: BUNDLE_VERSION,
            kind: String::from_str("kem"),
            level: level_to_u8(data.level),
            salt,
            nonce,
            ciphertext,
        })
    }

    /// Seal a DSA key pair with the given salt and nonce (what `seal_dsa`
    /// does after drawing them). Fails exactly when Argon2 refuses the
    /// passphrase or the salt.
    pub fn seal_dsa_with(kp: &DsaKeyPair, passphrase: &[u8], salt: &[u8], nonce: &[u8]) -> (r: Result<Self>)
        requires
            nonce@.len() == 12,
        ensures
            match r {
                Ok(b) => sealed_with(kp@, passphrase@, false, salt@, nonce@, b@),
                Err(e) => !kdf_accepts(passphrase@, salt@) && other_with(e, "Argon2 KDF failed"@),
            },
    {
        let data = kp.export()?;
        let plaintext = encode_dsa_plaintext(&data);
        let (salt, nonce, ciphertext) = encrypt_with(&plaintext, passphrase, salt, nonce)?;
        Ok(EncryptedKeyBundle {
            version: BUNDLE_VERSION,
            kind: String::from_str("dsa"),
            level: level_to_u8(data.level),
            salt,
            nonce,
            ciphertext,
        })
    }

    /// Decrypt and restore a KEM key pair.
    pub fn unseal_kem(&self, passphrase: &[u8]) -> (r: Result<KemKeyPair>)
        requires
            !unseal_panics(self@, passphrase@, true),
        ensures
            match r {
                Ok(kp) => unseal_outcome(self@, passphrase@, true) == Ok::<(SecurityLevel, Seq<u8>, Seq<u8>), UnsealFault>(kp@),
                Err(e) => unseal_outcome(self@, passphrase@, true) matches Err(f)
                    && unseal_error(e, f, self@, true),
            },
    {
        if !str_eq(self.kind.as_str(), "kem") {
            return Err(PqcError::Other(String::from_str("Bundle is not a KEM key")));
        }
        if self.version != BUNDLE_VERSION {
            return Err(unsupported_version(self.version));
        }
        let level = u8_to_level(self.level)?;
        let plaintext = decrypt(self, passphrase)?;
        decode_kem_plaintext(level, plaintext.as_slice())?.into_keypair()
    }

    /// Decrypt and restore a DSA key pair.
    pub fn unseal_dsa(&self, passphrase: &[u8]) -> (r: Result<DsaKeyPair>)
        requires
            !unseal_panics(self@, passphrase@, false),
        ensures
            match r {
                Ok(kp) => unseal_outcome(self@, passphrase@, false) == Ok::<(SecurityLevel, Seq<u8>, Seq<u8>), UnsealFault>(kp@),
                Err(e) => unseal_outcome(self@, passphrase@, false) matches Err(f)
                    && unseal_error(e, f, self@, false),
            },
    {
        if !str_eq(self.kind.as_str(), "dsa") {
            return Err(PqcError::Other(String::from_str("Bundle is not a DSA key")));
        }
        if self.version != BUNDLE_VERSION {
            return Err(unsupported_version(self.version));
        }
        let level = u8_to_level(self.level)?;
        let plaintext = decrypt(self, passphrase)?;
        decode_dsa_plaintext(level, plaintext.as_slice())?.into_keypair()
    }

    /// Whether unsealing this bundle as the given kind with `passphrase`
    /// would reach AES-GCM with a nonce that is not 12 bytes long (which
    /// panics); `unseal_kem` and `unseal_dsa` must not be called then.
    pub fn has_bad_nonce(&self, passphrase: &[u8], is_kem: bool) -> (r: bool)
        ensures
            r == unseal_panics(self@, passphrase@, is_kem),
    {
        let kind = if is_kem { "kem" } else { "dsa" };
        if !str_eq(self.kind.as_str(), kind) || self.version != BUNDLE_VERSION {
            return false;
        }
        if u8_to_level(self.level).is_err() {
            return false;
        }
        let salt = match from_hex(self.salt.as_str()) {
            Ok(v) => v,
            Err(_) => return false,
        };
        let nonce = match from_hex(self.nonce.as_str()) {
            Ok(v) => v,
            Err(_) => return false,
        };
        if from_hex(self.ciphertext.as_str()).is_err() {
            return false;
        }
        passphrase.len() <= 0xFFFF_FFFF && 8 <= salt.len() && salt.len() <= 0xFFFF_FFFF
            && nonce.len() != 12
    }

    /// A bundle made of its fields, as read from storage.
    pub fn from_parts(version: u8, kind: String, level: u8, salt: String, nonce: String, ciphertext: String) -> (r: Self)
        ensures
            r@ == (BundleModel { version, kind: kind@, level, salt: salt@, nonce: nonce@, ciphertext: ciphertext@ }),
    {
        EncryptedKeyBundle { version, kind, level, salt, nonce, ciphertext }
    }

    /// Returns the bundle format version.
    pub fn version(&self) -> (r: u8)
        ensures
            r == self@.version,
    {
        self.version
    }

    /// Returns the kind: "kem" or "dsa".
    pub fn kind(&self) -> (r: &str)
        ensures
            r@ == self@.kind,
    {
        self.kind.as_str()
    }

    /// Returns the security level number.
    pub fn level(&self) -> (r: u8)
        ensures
            r == self@.level,
    {
        self.level
    }

    /// Returns the hex text of the Argon2id salt.
    pub fn salt(&self) -> (r: &str)
        ensures
            r@ == self@.salt,
    {
        self.salt.as_str()
    }

    /// Returns the hex text of the AES-GCM nonce.
    pub fn nonce(&self) -> (r: &str)
        ensures
            r@ == self@.nonce,
    {
        self.nonce.as_str()
    }

    /// Returns the hex text of the ciphertext.
    pub fn ciphertext(&self) -> (r: &str)
        ensures
            r@ == self@.ciphertext,
    {
        self.ciphertext.as_str()
    }
}

// ── Laws ──────────────────────────────────────────────────────────────────────

/// Unsealing a bundle that sealing a key pair with a passphrase gave, as the
/// same kind and with the same passphrase, cannot panic and gives back the
/// key pair (level, public key and secret key).
pub proof fn lemma_seal_unseal(kp: (SecurityLevel, Seq<u8>, Seq<u8>), pwd: Seq<u8>, is_kem: bool, b: BundleModel)
    requires
        key_lengths_ok(is_kem, kp),
        sealed(kp, pwd, is_kem, b),
    ensures
        !unseal_panics(b, pwd, is_kem),
        unseal_outcome(b, pwd, is_kem) == Ok::<(SecurityLevel, Seq<u8>, Seq<u8>), UnsealFault>(kp),
{
    let (salt, nonce) = choose|salt: Seq<u8>, nonce: Seq<u8>|
        salt.len() == 16 && nonce.len() == 12 && #[trigger] sealed_with(kp, pwd, is_kem, salt, nonce, b);
    let ct = aes256gcm_ciphertext(bundle_key(pwd, salt), nonce, key_plaintext(kp.1, kp.2));
    lemma_hex_roundtrip(salt);
    lemma_hex_roundtrip(nonce);
    lemma_hex_roundtrip(ct);
    lemma_level_number_roundtrip(kp.0, level_number(kp.0));
    assert(kp.1.len() <= u32::MAX);
    lemma_key_plaintext_roundtrip(kp.1, kp.2);
    assert(decrypt_outcome(b, pwd) == Ok::<Seq<u8>, UnsealFault>(key_plaintext(kp.1, kp.2)));
}

/// The key that encrypts a sealed bundle is Argon2id (version 0x13) of the
/// passphrase and the salt with 65536 KiB of memory, 3 iterations and
/// parallelism 4, 32 bytes long.
pub proof fn lemma_sealing_key_is_argon2id(kp: (SecurityLevel, Seq<u8>, Seq<u8>), pwd: Seq<u8>, is_kem: bool, salt: Seq<u8>, nonce: Seq<u8>, b: BundleModel)
    requires
        sealed_with(kp, pwd, is_kem, salt, nonce, b),
    ensures
        b.ciphertext == hex_encoding(
            aes256gcm_ciphertext(argon2id_output(65536, 3, 4, 32, pwd, salt), nonce, key_plaintext(kp.1, kp.2)),
        ),
        b.salt == hex_encoding(salt),
        b.nonce == hex_encoding(nonce),
{
}

/// Decrypting a bundle whose salt, nonce and ciphertext are hex, with a
/// passphrase and salt that Argon2 accepts, decrypts with the key that
/// Argon2id (version 0x13) makes of them with 65536 KiB of memory, 3
/// iterations and parallelism 4, 32 bytes long.
pub proof fn lemma_unsealing_key_is_argon2id(b: BundleModel, pwd: Seq<u8>, salt: Seq<u8>, nonce: Seq<u8>, ct: Seq<u8>)
    requires
        hex_decoding(b.salt) == Some(salt),
        hex_decoding(b.nonce) == Some(nonce),
        hex_decoding(b.ciphertext) == Some(ct),
        kdf_accepts(pwd, salt),
    ensures
        decrypt_outcome(b, pwd) == match aes256gcm_plaintext(argon2id_output(65536, 3, 4, 32, pwd, salt), nonce, ct) {
            Some(pt) => Ok::<Seq<u8>, UnsealFault>(pt),
            None => Err::<Seq<u8>, UnsealFault>(UnsealFault::DecryptionFailed),
        },
{
}

/// A bundle sealed as one kind is refused when unsealed as the other kind,
/// whatever the passphrase.
pub proof fn lemma_wrong_kind_refused(kp: (SecurityLevel, Seq<u8>, Seq<u8>), pwd: Seq<u8>, is_kem: bool, b: BundleModel, other_pwd: Seq<u8>)
    requires
        sealed(kp, pwd, is_kem, b),
    ensures
        unseal_outcome(b, other_pwd, !is_kem) == Err::<(SecurityLevel, Seq<u8>, Seq<u8>), UnsealFault>(UnsealFault::WrongKind),
{
    reveal_strlit("kem");
    reveal_strlit("dsa");
    assert("kem"@[0] != "dsa"@[0]);
    assert(kind_text(is_kem) != kind_text(!is_kem));
}

} // verus!
