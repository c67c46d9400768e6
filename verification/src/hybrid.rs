//! Hybrid key exchange: X25519 + ML-KEM (Kyber).
//!
//! The shared secret is `HKDF-SHA256(ikm = x25519_shared || kyber_shared,
//! info = "pqc_vault hybrid v1")`, 32 bytes long, so an attacker has to break
//! both X25519 and Kyber to recover it. A ciphertext travels as hex: the
//! 32-byte ephemeral X25519 public key followed by the Kyber ciphertext.
#![allow(unused_imports)]

use crate::error::{invalid_ciphertext_with, other_with, PqcError, Result};
use crate::kem::{
    kem_bad_ciphertext_text, kem_decapsulation, kem_decrypts, kem_encapsulated,
    kem_key_lengths_ok, kem_key_pair, kem_matched, kem_public_key_ok, kem_sizes, KemKeyPair,
    KemPublicKey,
};
use crate::secret::SecretBytes;
use crate::text::{is_white, lemma_trim_unchanged, trim, trimmed};
use crate::utils::{
    from_hex, hex_decoding, hex_digit, hex_encoding, lemma_hex_encoding_append,
    lemma_hex_encoding_len, lemma_hex_roundtrip, to_hex,
};
use crate::SecurityLevel;
use hkdf::Hkdf;
use rand::rngs::OsRng;
use sha2::Sha256;
use vstd::prelude::*;
use vstd::slice::{slice_subrange, slice_to_vec};
use x25519_dalek::{EphemeralSecret, PublicKey as X25519PublicKey, StaticSecret};

verus! {

// ── X25519 ────────────────────────────────────────────────────────────────────

/// The public key bytes that `x25519_dalek::PublicKey::from(&StaticSecret)`
/// computes for a 32-byte secret.
pub uninterp spec fn x25519_public_of(secret: Seq<u8>) -> Seq<u8>;

/// The 32 shared bytes that `StaticSecret::diffie_hellman` computes from a
/// 32-byte secret and a 32-byte public key.
pub uninterp spec fn x25519_dh(secret: Seq<u8>, public: Seq<u8>) -> Seq<u8>;

/// `StaticSecret::random_from_rng(OsRng)`, returned as its 32 bytes
/// (`as_bytes`). Nothing is claimed of the values.
#[verifier::external_body]
fn x25519_random_secret() -> (r: Vec<u8>)
    ensures
        r@.len() == 32,
{
    StaticSecret::random_from_rng(OsRng).as_bytes().to_vec()
}

/// `PublicKey::from(&StaticSecret::from(secret))`, as its 32 bytes.
#[verifier::external_body]
fn x25519_public_key(secret: &[u8]) -> (r: Vec<u8>)
    requires
        secret@.len() == 32,
    ensures
        r@ == x25519_public_of(secret@),
        r@.len() == 32,
{
    let bytes: [u8; 32] = secret.try_into().expect("length checked by the caller");
    X25519PublicKey::from(&StaticSecret::from(bytes)).as_bytes().to_vec()
}

/// `StaticSecret::from(secret).diffie_hellman(&PublicKey::from(public))`,
/// as its 32 bytes.
#[verifier::external_body]
fn x25519_diffie_hellman(secret: &[u8], public: &[u8]) -> (r: Vec<u8>)
    requires
        secret@.len() == 32,
        public@.len() == 32,
    ensures
        r@ == x25519_dh(secret@, public@),
        r@.len() == 32,
{
    let s: [u8; 32] = secret.try_into().expect("length checked by the caller");
    let p: [u8; 32] = public.try_into().expect("length checked by the caller");
    StaticSecret::from(s).diffie_hellman(&X25519PublicKey::from(p)).as_bytes().to_vec()
}

/// A fresh `EphemeralSecret::random_from_rng(OsRng)`: returns its public key
/// (`PublicKey::from(&ephemeral)`) and its `diffie_hellman` with the remote
/// public key, both as 32 bytes; the secret itself is consumed and wiped.
/// The claim that every secret key whose public key is `remote` agrees on
/// the shared bytes is X25519's key agreement, which the crate's own example
/// for `x25519` asserts.
#[verifier::external_body]
fn x25519_ephemeral_exchange(remote: &[u8]) -> (r: (Vec<u8>, Vec<u8>))
    requires
        remote@.len() == 32,
    ensures
        r.0@.len() == 32,
        r.1@.len() == 32,
        forall|sk: Seq<u8>|
            sk.len() == 32 && x25519_public_of(sk) == remote@ ==> #[trigger] x25519_dh(sk, r.0@)
                == r.1@,
{
    let remote: [u8; 32] = remote.try_into().expect("length checked by the caller");
    let ephemeral = EphemeralSecret::random_from_rng(OsRng);
    let public = X25519PublicKey::from(&ephemeral);
    let shared = ephemeral.diffie_hellman(&X25519PublicKey::from(remote));
    (public.as_bytes().to_vec(), shared.as_bytes().to_vec())
}

// ── HKDF combiner ─────────────────────────────────────────────────────────────

/// The `len` bytes of HKDF-SHA256 output keying material for input keying
/// material `ikm`, no salt, and context `info`.
pub uninterp spec fn hkdf_sha256_output(ikm: Seq<u8>, info: Seq<u8>, len: nat) -> Seq<u8>;

#[verifier::external_type_specification]
#[verifier::external_body]
pub struct ExInvalidLength(hkdf::InvalidLength);

/// `Hkdf::<Sha256>::new(None, ikm).expand(info, okm)` into a zeroed buffer of
/// `len` bytes. The source fails exactly when `len` exceeds 255 blocks of 32.
#[verifier::external_body]
fn hkdf_sha256_expand(ikm: &[u8], info: &[u8], len: usize) -> (r: core::result::Result<Vec<u8>, hkdf::InvalidLength>)
    ensures
        r is Ok <==> len <= 255 * 32,
        r matches Ok(okm) ==> okm@ == hkdf_sha256_output(ikm@, info@, len as nat) && okm@.len() == len,
{
    let mut okm = vec![0u8; len];
    Hkdf::<Sha256>::new(None, ikm).expand(info, &mut okm)?;
    Ok(okm)
}

/// The ASCII bytes of the domain-separation label `"pqc_vault hybrid v1"`.
pub open spec fn hybrid_info() -> Seq<u8> {
    seq![112u8, 113, 99, 95, 118, 97, 117, 108, 116, 32, 104, 121, 98, 114, 105, 100, 32, 118, 49]
}

fn hybrid_info_bytes() -> (r: Vec<u8>)
    ensures
        r@ == hybrid_info(),
{
    let r: Vec<u8> = vec![112u8, 113, 99, 95, 118, 97, 117, 108, 116, 32, 104, 121, 98, 114, 105, 100, 32, 118, 49];
    assert(r@ =~= hybrid_info());
    r
}

/// The combined secret of an X25519 shared secret and a Kyber shared secret.
pub open spec fn hybrid_combine(x25519: Seq<u8>, kyber: Seq<u8>) -> Seq<u8> {
    hkdf_sha256_output(x25519 + kyber, hybrid_info(), 32)
}

/// Derives the 32-byte hybrid secret from both shared secrets.
fn combine_secrets(x25519: &[u8], kyber: &[u8]) -> (r: Result<SecretBytes>)
    ensures
        r matches Ok(s) && s@ == hybrid_combine(x25519@, kyber@) && s@.len() == 32,
{
    let mut ikm: Vec<u8> = Vec::new();
    ikm.extend_from_slice(x25519);
    ikm.extend_from_slice(kyber);
    assert(ikm@ =~= x25519@ + kyber@);
    let ikm = SecretBytes::new(ikm);
    let info = hybrid_info_bytes();
    match hkdf_sha256_expand(ikm.as_slice(), info.as_slice(), 32) {
        Ok(okm) => Ok(SecretBytes::new(okm)),
        Err(_) => Err(PqcError::Other(String::from_str("HKDF expand failed"))),
    }
}

// ── Public key ────────────────────────────────────────────────────────────────

/// A hybrid X25519 + Kyber public key. Share with the other party.
pub struct HybridPublicKey {
    x25519: Vec<u8>,
    kyber: KemPublicKey,
}

impl View for HybridPublicKey {
    /// The X25519 public key bytes and the Kyber public key.
    type V = (Seq<u8>, (SecurityLevel, Seq<u8>));

    closed spec fn view(&self) -> (Seq<u8>, (SecurityLevel, Seq<u8>)) {
        (self.x25519@, self.kyber@)
    }
}

impl HybridPublicKey {
    #[verifier::type_invariant]
    spec fn x25519_length(self) -> bool {
        &&& self.x25519@.len() == 32
        &&& kem_public_key_ok(self.kyber@)
    }

    /// X25519 component bytes (32 bytes).
    pub fn x25519_bytes(&self) -> (r: &[u8])
        ensures
            r@ == self@.0,
            r@.len() == 32,
    {
        proof {
            use_type_invariant(self);
        }
        self.x25519.as_slice()
    }

    /// Kyber component.
    pub fn kyber_key(&self) -> (r: &KemPublicKey)
        ensures
            r@ == self@.1,
            kem_public_key_ok(self@.1),
    {
        proof {
            use_type_invariant(self);
        }
        &self.kyber
    }
}

// ── Ciphertext ────────────────────────────────────────────────────────────────

/// The ciphertext from a hybrid encapsulation.
///
/// Serialises to/from hex so it can be transmitted between processes and machines.
pub struct HybridCiphertext {
    /// The encapsulating side's ephemeral X25519 public key (32 bytes).
    x25519_ephemeral: Vec<u8>,
    /// Kyber ciphertext.
    kyber_ct: Vec<u8>,
}

impl View for HybridCiphertext {
    /// The ephemeral X25519 public key bytes and the Kyber ciphertext.
    type V = (Seq<u8>, Seq<u8>);

    closed spec fn view(&self) -> (Seq<u8>, Seq<u8>) {
        (self.x25519_ephemeral@, self.kyber_ct@)
    }
}

/// A ciphertext's parts have the sizes that its hex form can carry: a
/// 32-byte X25519 key and a non-empty Kyber part.
pub open spec fn hybrid_ct_shape(ct: (Seq<u8>, Seq<u8>)) -> bool {
    &&& ct.0.len() == 32
    &&& 0 < ct.1.len() <= usize::MAX - 32
}

/// The hex form of a ciphertext: both parts hex-encoded, X25519 first.
pub open spec fn hybrid_ct_hex(ct: (Seq<u8>, Seq<u8>)) -> Seq<char> {
    hex_encoding(ct.0) + hex_encoding(ct.1)
}

/// What reading a ciphertext from hex text gives: the parts when the
/// trimmed text is hex for more than 32 bytes, else the reason it is refused
/// (`Err(true)` for text that is not hex, `Err(false)` for too few bytes).
pub open spec fn hybrid_ct_read(s: Seq<char>) -> core::result::Result<(Seq<u8>, Seq<u8>), bool> {
    match hex_decoding(trim(s)) {
        None => Err(true),
        Some(b) => if b.len() <= 32 {
            Err(false)
        } else {
            Ok((b.subrange(0, 32), b.subrange(32, b.len() as int)))
        },
    }
}

impl HybridCiphertext {
    #[verifier::type_invariant]
    spec fn shape(self) -> bool {
        hybrid_ct_shape(self@)
    }

    /// Encode the ciphertext as a hex string for transmission.
    ///
    /// Format: `<x25519_ephemeral_hex (64 chars)><kyber_ct_hex>`
    /// The X25519 component is always 32 bytes, so the boundary is fixed.
    pub fn to_hex(&self) -> (r: String)
        ensures
            r@ == hybrid_ct_hex(self@),
            hybrid_ct_shape(self@),
    {
        proof {
            use_type_invariant(self);
        }
        let mut r = to_hex(self.x25519_ephemeral.as_slice());
        let k = to_hex(self.kyber_ct.as_slice());
        r.append(k.as_str());
        r
    }

    /// Decode a ciphertext from a hex string produced by `to_hex()`.
    pub fn from_hex(s: &str) -> (r: Result<Self>)
        ensures
            match r {
                Ok(ct) => hybrid_ct_read(s@) == Ok::<(Seq<u8>, Seq<u8>), bool>(ct@),
                Err(e) => match hybrid_ct_read(s@) {
                    Ok(_) => false,
                    Err(true) => invalid_ciphertext_with(e, "Invalid hex in HybridCiphertext"@),
                    Err(false) => invalid_ciphertext_with(
                        e,
                        "HybridCiphertext too short — missing Kyber component"@,
                    ),
                },
            },
    {
        let t = trimmed(s);
        let bytes = match from_hex(t.as_str()) {
            Ok(b) => b,
            Err(_) => {
                return Err(
                    PqcError::InvalidCiphertext(String::from_str("Invalid hex in HybridCiphertext")),
                );
            },
        };
        if bytes.len() <= 32 {
            return Err(
                PqcError::InvalidCiphertext(
                    String::from_str("HybridCiphertext too short — missing Kyber component"),
                ),
            );
        }
        let x25519_ephemeral = slice_to_vec(slice_subrange(bytes.as_slice(), 0, 32));
        let kyber_ct = slice_to_vec(slice_subrange(bytes.as_slice(), 32, bytes.len()));
        Ok(HybridCiphertext { x25519_ephemeral, kyber_ct })
    }

    /// Length of the ciphertext in bytes.
    pub fn len(&self) -> (r: usize)
        ensures
            r == self@.0.len() + self@.1.len(),
    {
        proof {
            use_type_invariant(self);
        }
        32 + self.kyber_ct.len()
    }

    /// Returns true if the ciphertext is empty (never, as both parts are
    /// non-empty).
    pub fn is_empty(&self) -> (r: bool)
        ensures
            r == (self@.0.len() + self@.1.len() == 0),
            !r,
    {
        proof {
            use_type_invariant(self);
        }
        self.len() == 0
    }
}

// ── Key pair ──────────────────────────────────────────────────────────────────

/// A hybrid X25519 + Kyber key pair.
pub struct HybridKeyPair {
    x25519_secret: SecretBytes,
    x25519_public: Vec<u8>,
    kyber: KemKeyPair,
}

impl View for HybridKeyPair {
    /// The X25519 secret and public key bytes and the Kyber key pair.
    type V = (Seq<u8>, Seq<u8>, (SecurityLevel, Seq<u8>, Seq<u8>));

    closed spec fn view(&self) -> (Seq<u8>, Seq<u8>, (SecurityLevel, Seq<u8>, Seq<u8>)) {
        (self.x25519_secret@, self.x25519_public@, self.kyber@)
    }
}

/// The public half of a hybrid key pair.
pub open spec fn hybrid_public_of(kp: (Seq<u8>, Seq<u8>, (SecurityLevel, Seq<u8>, Seq<u8>))) -> (
    Seq<u8>,
    (SecurityLevel, Seq<u8>),
) {
    (kp.1, (kp.2.0, kp.2.1))
}

/// Whether a hybrid key pair's halves belong together: the X25519 public
/// key is that of the 32-byte secret, and the Kyber halves were generated
/// together.
pub open spec fn hybrid_matched(kp: (Seq<u8>, Seq<u8>, (SecurityLevel, Seq<u8>, Seq<u8>))) -> bool {
    &&& kp.0.len() == 32
    &&& kp.1 == x25519_public_of(kp.0)
    &&& kem_matched(kp.2)
}

/// What decapsulating `ct` with the X25519 secret `xsk` and the Kyber secret
/// key `ksk` at `level` gives: the combined secret when the Kyber part has
/// the level's ciphertext length, else nothing.
pub open spec fn hybrid_decapsulation(
    level: SecurityLevel,
    xsk: Seq<u8>,
    ksk: Seq<u8>,
    ct: (Seq<u8>, Seq<u8>),
) -> Option<Seq<u8>> {
    if ct.1.len() == kem_sizes(level).ciphertext {
        Some(hybrid_combine(x25519_dh(xsk, ct.0), kem_decapsulation(level, ct.1, ksk)))
    } else {
        None
    }
}

/// What decapsulating `ct` with the hybrid key pair `kp` gives.
pub open spec fn hybrid_decapsulate_result(
    kp: (Seq<u8>, Seq<u8>, (SecurityLevel, Seq<u8>, Seq<u8>)),
    ct: (Seq<u8>, Seq<u8>),
) -> Option<Seq<u8>> {
    hybrid_decapsulation(kp.2.0, kp.0, kp.2.2, ct)
}

/// `(ct, ss)` is what encapsulating to the hybrid public key `pk` gave with
/// the X25519 shared secret `xs` and the Kyber shared secret `ks`: every
/// 32-byte X25519 secret whose public key is `pk`'s agrees on `xs` with the
/// ephemeral key in `ct`, the Kyber part of `ct` and `ks` are what Kyber's
/// encapsulation to `pk`'s Kyber key returned, and `ss` combines `xs` and
/// `ks`.
pub open spec fn hybrid_encapsulated_with(
    pk: (Seq<u8>, (SecurityLevel, Seq<u8>)),
    ct: (Seq<u8>, Seq<u8>),
    ss: Seq<u8>,
    xs: Seq<u8>,
    ks: Seq<u8>,
) -> bool {
    &&& ct.0.len() == 32
    &&& kem_encapsulated(pk.1, ct.1, ks)
    &&& ss == hybrid_combine(xs, ks)
    &&& forall|xsk: Seq<u8>|
        xsk.len() == 32 && x25519_public_of(xsk) == pk.0 ==> #[trigger] x25519_dh(xsk, ct.0) == xs
}

/// `(ct, ss)` is a possible outcome of encapsulating to the hybrid public key
/// `pk`: a 32-byte secret, made as `hybrid_encapsulated_with` says from some
/// pair of shared secrets.
pub open spec fn hybrid_encapsulated(
    pk: (Seq<u8>, (SecurityLevel, Seq<u8>)),
    ct: (Seq<u8>, Seq<u8>),
    ss: Seq<u8>,
) -> bool {
    &&& ss.len() == 32
    &&& exists|xs: Seq<u8>, ks: Seq<u8>| #[trigger] hybrid_encapsulated_with(pk, ct, ss, xs, ks)
}

impl HybridKeyPair {
    #[verifier::type_invariant]
    spec fn x25519_lengths(self) -> bool {
        &&& self.x25519_secret@.len() == 32
        &&& self.x25519_public@.len() == 32
    }

    /// Generate a fresh hybrid key pair using OS entropy.
    pub fn generate(level: SecurityLevel) -> (r: Result<Self>)
        ensures
            r matches Ok(kp) && kp@.2.0 == level && hybrid_matched(kp@) && kem_key_lengths_ok(kp@.2),
    {
        let secret = x25519_random_secret();
        let public = x25519_public_key(secret.as_slice());
        let x25519_secret = SecretBytes::new(secret);
        let kyber = match KemKeyPair::generate(level) {
            Ok(k) => k,
            Err(e) => return Err(e),
        };
        Ok(HybridKeyPair { x25519_secret, x25519_public: public, kyber })
    }

    /// Returns the combined public key. The X25519 public key was stored at
    /// generation time — no secret key reconstruction occurs here.
    pub fn public_key(&self) -> (r: HybridPublicKey)
        ensures
            r@ == hybrid_public_of(self@),
            r@.0.len() == 32,
            kem_public_key_ok(r@.1),
    {
        proof {
            use_type_invariant(self);
        }
        HybridPublicKey {
            x25519: slice_to_vec(self.x25519_public.as_slice()),
            kyber: self.kyber.public_key(),
        }
    }

    /// Encapsulate to a remote hybrid public key.
    ///
    /// Returns `(ciphertext, shared_secret)`. The ciphertext can be
    /// serialised with `.to_hex()` and sent to the key pair holder. Never
    /// fails: every Kyber public key has the length of its level.
    pub fn encapsulate(remote_pub: &HybridPublicKey) -> (r: Result<(HybridCiphertext, SecretBytes)>)
        ensures
            r matches Ok((ct, ss)) && hybrid_encapsulated(remote_pub@, ct@, ss@),
    {
        proof {
            use_type_invariant(remote_pub);
        }
        let (eph_pub, x_shared) = x25519_ephemeral_exchange(remote_pub.x25519.as_slice());
        let (kyber_ct, k_shared) = match KemKeyPair::encapsulate(&remote_pub.kyber) {
            Ok(p) => p,
            Err(e) => return Err(e),
        };
        let combined = match combine_secrets(x_shared.as_slice(), k_shared.as_bytes()) {
            Ok(c) => c,
            Err(e) => return Err(e),
        };
        let ct = HybridCiphertext { x25519_ephemeral: eph_pub, kyber_ct };
        assert(hybrid_encapsulated_with(remote_pub@, ct@, combined@, x_shared@, k_shared@));
        Ok((ct, combined))
    }

    /// Decapsulate a hybrid ciphertext. Returns the shared secret. Fails only
    /// when the Kyber part does not have the length of the key pair's level.
    pub fn decapsulate(&self, ct: &HybridCiphertext) -> (r: Result<SecretBytes>)
        ensures
            match r {
                Ok(ss) => hybrid_decapsulate_result(self@, ct@) == Some(ss@),
                Err(e) => hybrid_decapsulate_result(self@, ct@) is None
                    && invalid_ciphertext_with(e, kem_bad_ciphertext_text(self@.2.0)),
            },
    {
        proof {
            use_type_invariant(self);
            use_type_invariant(ct);
        }
        let x_shared = x25519_diffie_hellman(self.x25519_secret.as_slice(), ct.x25519_ephemeral.as_slice());
        let k_shared = match self.kyber.decapsulate(ct.kyber_ct.as_slice()) {
            Ok(s) => s,
            Err(e) => return Err(e),
        };
        combine_secrets(x_shared.as_slice(), k_shared.as_bytes())
    }

    /// Security level of the Kyber component.
    pub fn security_level(&self) -> (r: SecurityLevel)
        ensures
            r == self@.2.0,
    {
        self.kyber.security_level()
    }
}

// ── Laws ──────────────────────────────────────────────────────────────────────

/// Decapsulating, with a hybrid key pair whose halves belong together, a
/// ciphertext that was encapsulated to its public key is accepted, and gives
/// back the encapsulated shared secret whenever Kyber's decryption of the
/// Kyber part succeeds, which is taken as the hypothesis `kem_decrypts`.
pub proof fn lemma_hybrid_roundtrip(
    kp: (Seq<u8>, Seq<u8>, (SecurityLevel, Seq<u8>, Seq<u8>)),
    ct: (Seq<u8>, Seq<u8>),
    ss: Seq<u8>,
    xs: Seq<u8>,
    ks: Seq<u8>,
)
    requires
        hybrid_matched(kp),
        hybrid_encapsulated_with(hybrid_public_of(kp), ct, ss, xs, ks),
    ensures
        hybrid_decapsulate_result(kp, ct) is Some,
        kem_decrypts(kp.2.0, kp.2.2, ct.1, ks) ==> hybrid_decapsulate_result(kp, ct) == Some(ss),
{
    assert(x25519_dh(kp.0, ct.0) == xs);
}

/// The shared secret that hybrid decapsulation gives is the 32-byte
/// HKDF-SHA256 output for the input keying material made of the X25519
/// shared secret (of the key pair's X25519 secret and the ciphertext's
/// ephemeral key) followed by the Kyber shared secret (of the ciphertext's
/// Kyber part), with the context `"pqc_vault hybrid v1"`.
pub proof fn lemma_hybrid_secret_is_hkdf(
    kp: (Seq<u8>, Seq<u8>, (SecurityLevel, Seq<u8>, Seq<u8>)),
    ct: (Seq<u8>, Seq<u8>),
)
    ensures
        hybrid_decapsulate_result(kp, ct) is Some ==> hybrid_decapsulate_result(kp, ct) == Some(
            hkdf_sha256_output(
                x25519_dh(kp.0, ct.0) + kem_decapsulation(kp.2.0, ct.1, kp.2.2),
                seq![112u8, 113, 99, 95, 118, 97, 117, 108, 116, 32, 104, 121, 98, 114, 105, 100, 32, 118, 49],
                32,
            ),
        ),
{
}

/// The shared secret that hybrid encapsulation gives is the 32-byte
/// HKDF-SHA256 output for the X25519 shared secret followed by the Kyber
/// shared secret, with the context `"pqc_vault hybrid v1"`; and two
/// encapsulations whose 32-byte X25519 secrets differ feed HKDF different
/// input keying material, even with the same Kyber secret.
pub proof fn lemma_hybrid_encapsulated_is_hkdf(
    pk: (Seq<u8>, (SecurityLevel, Seq<u8>)),
    ct: (Seq<u8>, Seq<u8>),
    ss: Seq<u8>,
    xs: Seq<u8>,
    ks: Seq<u8>,
    xs2: Seq<u8>,
)
    requires
        hybrid_encapsulated_with(pk, ct, ss, xs, ks),
    ensures
        ss == hkdf_sha256_output(
            xs + ks,
            seq![112u8, 113, 99, 95, 118, 97, 117, 108, 116, 32, 104, 121, 98, 114, 105, 100, 32, 118, 49],
            32,
        ),
        xs.len() == 32 && xs2.len() == 32 && xs2 != xs ==> xs2 + ks != xs + ks,
{
    if xs.len() == 32 && xs2.len() == 32 && xs2 != xs {
        assert((xs2 + ks).take(32) =~= xs2);
        assert((xs + ks).take(32) =~= xs);
    }
}

/// Hex digits are not white space.
proof fn lemma_hex_digit_not_white(n: int)
    requires
        0 <= n < 16,
    ensures
        !is_white(hex_digit(n)),
{
}

/// Reading back the hex form of a ciphertext whose parts have the sizes a
/// ciphertext has gives the same parts.
pub proof fn lemma_ct_hex_roundtrip(ct: (Seq<u8>, Seq<u8>))
    requires
        hybrid_ct_shape(ct),
    ensures
        hybrid_ct_read(hybrid_ct_hex(ct)) == Ok::<(Seq<u8>, Seq<u8>), bool>(ct),
{
    let b = ct.0 + ct.1;
    lemma_hex_encoding_append(ct.0, ct.1);
    let s = hybrid_ct_hex(ct);
    assert(s == hex_encoding(b));
    lemma_hex_encoding_len(b);
    assert(s.len() > 0);
    assert(s[0] == hex_digit(b[0] as int / 16));
    lemma_hex_digit_not_white(b[0] as int / 16);
    assert(s.last() == hex_digit(b.last() as int % 16)) by {
        lemma_hex_last(b);
    }
    lemma_hex_digit_not_white(b.last() as int % 16);
    lemma_trim_unchanged(s);
    lemma_hex_roundtrip(b);
    assert(b.subrange(0, 32) =~= ct.0);
    assert(b.subrange(32, b.len() as int) =~= ct.1);
}

/// The last hex digit of non-empty bytes is the low digit of the last byte.
proof fn lemma_hex_last(b: Seq<u8>)
    requires
        b.len() > 0,
    ensures
        hex_encoding(b).len() == 2 * b.len(),
        hex_encoding(b).last() == hex_digit(b.last() as int % 16),
{
    lemma_hex_encoding_len(b);
    let init = b.drop_last();
    lemma_hex_encoding_append(init, seq![b.last()]);
    assert(init + seq![b.last()] =~= b);
    lemma_hex_encoding_len(init);
    lemma_hex_encoding_len(seq![b.last()]);
    let one = seq![b.last()];
    assert(one.drop_first() =~= Seq::<u8>::empty());
    assert(hex_encoding(one) == seq![hex_digit(one[0] as int / 16), hex_digit(one[0] as int % 16)] + hex_encoding(one.drop_first()));
}

} // verus!
