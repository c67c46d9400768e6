//! PEM encoding for public keys.
//!
//! ```text
//! -----BEGIN ML-KEM PUBLIC KEY-----
//! Algorithm: ML-KEM; Level: Level3; Variant: Kyber768
//! <base64 — 64 chars per line>
//! -----END ML-KEM PUBLIC KEY-----
//! ```
//!
//! Private keys are not exported to PEM — use `EncryptedKeyBundle` instead.
//! Decoded bytes are checked against the level's key length before a key
//! object is constructed.
#![allow(unused_imports)]

use crate::dsa::{dsa_bad_public_key_text, dsa_sizes, DsaPublicKey};
use crate::error::{invalid_key_with, other_with, PqcError, Result};
use crate::kem::{kem_bad_public_key_text, kem_sizes, KemPublicKey};
use crate::text::{
    char_free, concat_all, find, find_chars, has_pair, is_white, lemma_char_free,
    lemma_concat_all_concat, lemma_concat_all_one, lemma_find, lemma_find_is,
    lemma_no_pair_no_match, lemma_nonempty_trimmed_concat, lemma_nonempty_trimmed_one,
    lemma_pair_concat, lemma_pair_free, lemma_split_concat, lemma_split_lines_nonempty,
    lemma_split_no_newline, lemma_trim_empty, lemma_trim_unchanged, matches_at, nonempty_trimmed,
    pair_free, split_lines, text_lines, trim, trim_bounds,
};
use crate::utils::chars_of;
use crate::SecurityLevel;
use base64::engine::general_purpose::STANDARD as BASE64;
use base64::Engine;
use vstd::prelude::*;
use vstd::string::*;

verus! {

// ── Base64 ────────────────────────────────────────────────────────────────────

/// The character of the standard base64 alphabet for a six-bit value.
pub open spec fn b64_char(n: int) -> char {
    if n < 26 {
        (65 + n) as char
    } else if n < 52 {
        (71 + n) as char
    } else if n < 62 {
        (n - 4) as char
    } else if n == 62 {
        '+'
    } else {
        '/'
    }
}

/// Standard base64 (RFC 4648) with `=` padding: each group of three bytes
/// becomes four characters; a final group of one or two bytes is padded.
pub open spec fn b64_encoding(b: Seq<u8>) -> Seq<char>
    decreases b.len(),
{
    if b.len() == 0 {
        Seq::empty()
    } else if b.len() == 1 {
        seq![b64_char(b[0] as int / 4), b64_char((b[0] as int % 4) * 16), '=', '=']
    } else if b.len() == 2 {
        seq![
            b64_char(b[0] as int / 4),
            b64_char((b[0] as int % 4) * 16 + b[1] as int / 16),
            b64_char((b[1] as int % 16) * 4),
            '=',
        ]
    } else {
        seq![
            b64_char(b[0] as int / 4),
            b64_char((b[0] as int % 4) * 16 + b[1] as int / 16),
            b64_char((b[1] as int % 16) * 4 + b[2] as int / 64),
            b64_char(b[2] as int % 64),
        ] + b64_encoding(b.skip(3))
    }
}

/// The bytes whose base64 text is `s`, if there are any.
pub open spec fn b64_decoding(s: Seq<char>) -> Option<Seq<u8>> {
    if exists|v: Seq<u8>| b64_encoding(v) == s {
        Some(choose|v: Seq<u8>| b64_encoding(v) == s)
    } else {
        None
    }
}

/// A character that base64 text can hold: a letter, a digit, `+`, `/` or `=`.
pub open spec fn b64_text_char(c: char) -> bool {
    let n = c as int;
    ||| 65 <= n <= 90
    ||| 97 <= n <= 122
    ||| 48 <= n <= 57
    ||| n == 43
    ||| n == 47
    ||| n == 61
}

proof fn lemma_b64_char(n: int)
    requires
        0 <= n < 64,
    ensures
        b64_text_char(b64_char(n)),
        b64_char(n) != '=',
{
}

proof fn lemma_b64_char_injective(n: int, m: int)
    requires
        0 <= n < 64,
        0 <= m < 64,
        b64_char(n) == b64_char(m),
    ensures
        n == m,
{
}

/// Base64 text holds only base64 characters.
pub proof fn lemma_b64_text(b: Seq<u8>)
    ensures
        forall|i: int| 0 <= i < b64_encoding(b).len() ==> b64_text_char(#[trigger] b64_encoding(b)[i]),
    decreases b.len(),
{
    let s = b64_encoding(b);
    if b.len() == 0 {
    } else if b.len() == 1 {
        lemma_b64_char(b[0] as int / 4);
        lemma_b64_char((b[0] as int % 4) * 16);
    } else if b.len() == 2 {
        lemma_b64_char(b[0] as int / 4);
        lemma_b64_char((b[0] as int % 4) * 16 + b[1] as int / 16);
        lemma_b64_char((b[1] as int % 16) * 4);
    } else {
        lemma_b64_char(b[0] as int / 4);
        lemma_b64_char((b[0] as int % 4) * 16 + b[1] as int / 16);
        lemma_b64_char((b[1] as int % 16) * 4 + b[2] as int / 64);
        lemma_b64_char(b[2] as int % 64);
        lemma_b64_text(b.skip(3));
        assert forall|i: int| 0 <= i < s.len() implies b64_text_char(#[trigger] s[i]) by {
            if i >= 4 {
                assert(s[i] == b64_encoding(b.skip(3))[i - 4]);
            }
        }
    }
}

proof fn lemma_b64_len(b: Seq<u8>)
    ensures
        b64_encoding(b).len() == 0 <==> b.len() == 0,
        b.len() >= 3 ==> b64_encoding(b).len() >= 4 && b64_encoding(b)[3] != '=',
        b.len() == 2 ==> b64_encoding(b).len() == 4 && b64_encoding(b)[3] == '=' && b64_encoding(b)[2] != '=',
        b.len() == 1 ==> b64_encoding(b).len() == 4 && b64_encoding(b)[3] == '=' && b64_encoding(b)[2] == '=',
{
    if b.len() >= 3 {
        lemma_b64_char(b[2] as int % 64);
    } else if b.len() == 2 {
        lemma_b64_char((b[1] as int % 16) * 4);
    }
}

/// Different bytes have different base64 texts.
pub proof fn lemma_b64_injective(a: Seq<u8>, b: Seq<u8>)
    requires
        b64_encoding(a) == b64_encoding(b),
    ensures
        a == b,
    decreases a.len(),
{
    lemma_b64_len(a);
    lemma_b64_len(b);
    let s = b64_encoding(a);
    if a.len() == 0 {
        assert(a =~= b);
    } else {
        assert(a.len() >= 3 <==> b.len() >= 3);
        assert(a.len() == 2 <==> b.len() == 2);
        let t = b64_encoding(b);
        assert(s[0] == t[0] && s[1] == t[1] && s[2] == t[2] && s[3] == t[3]);
        if a.len() == 1 {
            assert(s[0] == b64_char(a[0] as int / 4) && t[0] == b64_char(b[0] as int / 4));
            assert(s[1] == b64_char((a[0] as int % 4) * 16) && t[1] == b64_char((b[0] as int % 4) * 16));
            lemma_b64_char_injective(a[0] as int / 4, b[0] as int / 4);
            lemma_b64_char_injective((a[0] as int % 4) * 16, (b[0] as int % 4) * 16);
            assert(a[0] == b[0]);
            assert(a =~= b);
        } else if a.len() == 2 {
            assert(s[0] == b64_char(a[0] as int / 4) && t[0] == b64_char(b[0] as int / 4));
            assert(s[1] == b64_char((a[0] as int % 4) * 16 + a[1] as int / 16));
            assert(t[1] == b64_char((b[0] as int % 4) * 16 + b[1] as int / 16));
            assert(s[2] == b64_char((a[1] as int % 16) * 4) && t[2] == b64_char((b[1] as int % 16) * 4));
            lemma_b64_char_injective(a[0] as int / 4, b[0] as int / 4);
            lemma_b64_char_injective((a[0] as int % 4) * 16 + a[1] as int / 16, (b[0] as int % 4) * 16 + b[1] as int / 16);
            lemma_b64_char_injective((a[1] as int % 16) * 4, (b[1] as int % 16) * 4);
            assert(a[0] == b[0]);
            assert(a[1] == b[1]);
            assert(a =~= b);
        } else {
            assert(s[0] == b64_char(a[0] as int / 4) && t[0] == b64_char(b[0] as int / 4));
            assert(s[1] == b64_char((a[0] as int % 4) * 16 + a[1] as int / 16));
            assert(t[1] == b64_char((b[0] as int % 4) * 16 + b[1] as int / 16));
            assert(s[2] == b64_char((a[1] as int % 16) * 4 + a[2] as int / 64));
            assert(t[2] == b64_char((b[1] as int % 16) * 4 + b[2] as int / 64));
            assert(s[3] == b64_char(a[2] as int % 64) && t[3] == b64_char(b[2] as int % 64));
            lemma_b64_char_injective(a[0] as int / 4, b[0] as int / 4);
            lemma_b64_char_injective((a[0] as int % 4) * 16 + a[1] as int / 16, (b[0] as int % 4) * 16 + b[1] as int / 16);
            lemma_b64_char_injective((a[1] as int % 16) * 4 + a[2] as int / 64, (b[1] as int % 16) * 4 + b[2] as int / 64);
            lemma_b64_char_injective(a[2] as int % 64, b[2] as int % 64);
            assert(a[0] == b[0]);
            assert(a[1] == b[1]);
            assert(a[2] == b[2]);
            assert(b64_encoding(a.skip(3)) =~= s.skip(4));
            assert(b64_encoding(b.skip(3)) =~= t.skip(4));
            lemma_b64_injective(a.skip(3), b.skip(3));
            assert(a =~= seq![a[0], a[1], a[2]] + a.skip(3));
            assert(b =~= seq![b[0], b[1], b[2]] + b.skip(3));
        }
    }
}

/// Decoding the base64 text of `b` gives `b`.
pub proof fn lemma_b64_roundtrip(b: Seq<u8>)
    ensures
        b64_decoding(b64_encoding(b)) == Some(b),
{
    let v = choose|v: Seq<u8>| b64_encoding(v) == b64_encoding(b);
    lemma_b64_injective(v, b);
}

/// `base64`'s `STANDARD` engine `encode`: padded standard base64 text.
#[verifier::external_body]
fn base64_encode(data: &[u8]) -> (r: String)
    ensures
        r@ == b64_encoding(data@),
{
    BASE64.encode(data)
}

#[verifier::external_type_specification]
#[verifier::external_body]
pub struct ExDecodeError(base64::DecodeError);

/// `base64`'s `STANDARD` engine `decode`. Its configuration requires
/// canonical padding and rejects non-zero trailing bits, so it accepts
/// exactly the texts that `encode` produces, and gives back the bytes
/// they were made of.
#[verifier::external_body]
fn base64_decode(s: &str) -> (r: core::result::Result<Vec<u8>, base64::DecodeError>)
    ensures
        match r {
            Ok(v) => b64_encoding(v@) == s@,
            Err(_) => forall|v: Seq<u8>| b64_encoding(v) != s@,
        },
{
    BASE64.decode(s)
}

// ── PEM text ──────────────────────────────────────────────────────────────────

/// `s` cut into lines of 64 characters, joined with `'\n'`.
pub open spec fn wrap64(s: Seq<char>) -> Seq<char>
    decreases s.len(),
{
    if s.len() <= 64 {
        s
    } else {
        s.take(64) + seq!['\n'] + wrap64(s.skip(64))
    }
}

/// The line that opens a PEM block with `label`.
pub open spec fn begin_marker(label: Seq<char>) -> Seq<char> {
    "-----BEGIN "@ + label + "-----"@
}

/// The line that closes a PEM block with `label`.
pub open spec fn end_marker(label: Seq<char>) -> Seq<char> {
    "-----END "@ + label + "-----"@
}

/// A PEM block: the opening line, the header line, the base64 text of the
/// data in lines of 64 characters, and the closing line, each ended by `'\n'`.
pub open spec fn pem_text(label: Seq<char>, header: Seq<char>, data: Seq<u8>) -> Seq<char> {
    begin_marker(label) + seq!['\n'] + header + seq!['\n'] + wrap64(b64_encoding(data)) + seq!['\n']
        + end_marker(label) + seq!['\n']
}

/// The label of KEM public key blocks.
pub open spec fn kem_label() -> Seq<char> {
    "ML-KEM PUBLIC KEY"@
}

/// The label of DSA public key blocks.
pub open spec fn dsa_label() -> Seq<char> {
    "ML-DSA PUBLIC KEY"@
}

/// The name of a level in PEM headers.
pub open spec fn level_name(level: SecurityLevel) -> Seq<char> {
    match level {
        SecurityLevel::Level1 => "Level1"@,
        SecurityLevel::Level3 => "Level3"@,
        SecurityLevel::Level5 => "Level5"@,
    }
}

/// The Kyber variant of a level.
pub open spec fn kem_variant_name(level: SecurityLevel) -> Seq<char> {
    match level {
        SecurityLevel::Level1 => "Kyber512"@,
        SecurityLevel::Level3 => "Kyber768"@,
        SecurityLevel::Level5 => "Kyber1024"@,
    }
}

/// The Dilithium variant of a level.
pub open spec fn dsa_variant_name(level: SecurityLevel) -> Seq<char> {
    match level {
        SecurityLevel::Level1 => "Dilithium2"@,
        SecurityLevel::Level3 => "Dilithium3"@,
        SecurityLevel::Level5 => "Dilithium5"@,
    }
}

/// The header line of a KEM public key block.
pub open spec fn kem_header(level: SecurityLevel) -> Seq<char> {
    "Algorithm: ML-KEM; Level: "@ + level_name(level) + "; Variant: "@ + kem_variant_name(level)
}

/// The header line of a DSA public key block.
pub open spec fn dsa_header(level: SecurityLevel) -> Seq<char> {
    "Algorithm: ML-DSA; Level: "@ + level_name(level) + "; Variant: "@ + dsa_variant_name(level)
}

/// The level that a header line names: the first of `Level1`, `Level3`,
/// `Level5` that it contains.
pub open spec fn header_level(h: Seq<char>) -> Option<SecurityLevel> {
    if find(h, "Level1"@) is Some {
        Some(SecurityLevel::Level1)
    } else if find(h, "Level3"@) is Some {
        Some(SecurityLevel::Level3)
    } else if find(h, "Level5"@) is Some {
        Some(SecurityLevel::Level5)
    } else {
        None
    }
}

/// Why a PEM text cannot be read.
pub enum PemFault {
    MissingHeader,
    MissingFooter,
    EmptyBody,
    UnknownLevel,
    BadBase64,
}

/// The trimmed, non-empty lines between the opening and the closing line.
pub open spec fn pem_body_lines(pem: Seq<char>, label: Seq<char>) -> Seq<Seq<char>> {
    let start = find(pem, begin_marker(label))->0;
    let finish = find(pem, end_marker(label))->0;
    text_lines(pem.subrange(start + begin_marker(label).len(), finish))
}

/// Reading a PEM block with `label`: the first opening line and the first
/// closing line delimit the body; its first non-empty trimmed line is the
/// header, which names the level; the other lines, joined, are base64 text.
pub open spec fn read_pem(pem: Seq<char>, label: Seq<char>) -> core::result::Result<(SecurityLevel, Seq<u8>), PemFault> {
    if find(pem, begin_marker(label)) is None {
        Err(PemFault::MissingHeader)
    } else if find(pem, end_marker(label)) is None {
        Err(PemFault::MissingFooter)
    } else {
        let lines = pem_body_lines(pem, label);
        if lines.len() == 0 {
            Err(PemFault::EmptyBody)
        } else {
            match header_level(lines[0]) {
                None => Err(PemFault::UnknownLevel),
                Some(level) => match b64_decoding(concat_all(lines.skip(1))) {
                    None => Err(PemFault::BadBase64),
                    Some(bytes) => Ok((level, bytes)),
                },
            }
        }
    }
}

/// Reading panics (a string slice with its end before its start) when the
/// closing line is found before the end of the opening line.
pub open spec fn pem_panics(pem: Seq<char>, label: Seq<char>) -> bool {
    match (find(pem, begin_marker(label)), find(pem, end_marker(label))) {
        (Some(start), Some(finish)) => finish < start + begin_marker(label).len(),
        _ => false,
    }
}

/// Whether `e` is the error that reading reports for `f`.
pub open spec fn pem_error(e: PqcError, f: PemFault, pem: Seq<char>, label: Seq<char>) -> bool {
    match f {
        PemFault::MissingHeader => other_with(e, "Missing PEM header: "@ + begin_marker(label)),
        PemFault::MissingFooter => other_with(e, "Missing PEM footer: "@ + end_marker(label)),
        PemFault::EmptyBody => other_with(e, "Empty PEM body"@),
        PemFault::UnknownLevel => other_with(
            e,
            "Cannot parse security level from PEM header: "@ + pem_body_lines(pem, label)[0],
        ),
        PemFault::BadBase64 => other_with(e, "Invalid base64 in PEM body"@),
    }
}


// ── Encode ────────────────────────────────────────────────────────────────────

fn level_name_text(level: SecurityLevel) -> (r: &'static str)
    ensures
        r@ == level_name(level),
{
    match level {
        SecurityLevel::Level1 => "Level1",
        SecurityLevel::Level3 => "Level3",
        SecurityLevel::Level5 => "Level5",
    }
}

fn kem_variant(level: SecurityLevel) -> (r: &'static str)
    ensures
        r@ == kem_variant_name(level),
{
    match level {
        SecurityLevel::Level1 => "Kyber512",
        SecurityLevel::Level3 => "Kyber768",
        SecurityLevel::Level5 => "Kyber1024",
    }
}

fn dsa_variant(level: SecurityLevel) -> (r: &'static str)
    ensures
        r@ == dsa_variant_name(level),
{
    match level {
        SecurityLevel::Level1 => "Dilithium2",
        SecurityLevel::Level3 => "Dilithium3",
        SecurityLevel::Level5 => "Dilithium5",
    }
}

/// Cuts base64 text into lines of 64 characters joined with `'\n'`.
fn wrap_lines(b64: &str) -> (r: String)
    ensures
        r@ == wrap64(b64@),
{
    proof {
        reveal_strlit("\n");
    }
    let n = b64.unicode_len();
    let mut out = String::new();
    let mut pos: usize = 0;
    assert(b64@.skip(0) =~= b64@);
    while n - pos > 64
        invariant
            pos <= n,
            n == b64@.len(),
            out@ + wrap64(b64@.skip(pos as int)) == wrap64(b64@),
        decreases n - pos,
    {
        let ghost rest = b64@.skip(pos as int);
        let ghost before = out@;
        assert(rest.take(64) =~= b64@.subrange(pos as int, pos + 64));
        assert(rest.skip(64) =~= b64@.skip(pos + 64));
        proof {
            reveal_strlit("\n");
        }
        assert("\n"@ =~= seq!['\n']);
        assert(wrap64(rest) == rest.take(64) + seq!['\n'] + wrap64(rest.skip(64)));
        out.append(b64.substring_char(pos, pos + 64));
        out.append("\n");
        pos = pos + 64;
        assert(out@ + wrap64(b64@.skip(pos as int)) =~= before + wrap64(rest));
    }
    assert(b64@.skip(pos as int) =~= b64@.subrange(pos as int, n as int));
    out.append(b64.substring_char(pos, n));
    out
}

fn encode_pem(label: &str, header: &str, data: &[u8]) -> (r: String)
    ensures
        r@ == pem_text(label@, header@, data@),
{
    proof {
        reveal_strlit("\n");
    }
    let b64 = base64_encode(data);
    let wrapped = wrap_lines(b64.as_str());
    let mut out = String::from_str("-----BEGIN ");
    out.append(label);
    out.append("-----");
    out.append("\n");
    out.append(header);
    out.append("\n");
    out.append(wrapped.as_str());
    out.append("\n");
    out.append("-----END ");
    out.append(label);
    out.append("-----");
    out.append("\n");
    assert(out@ =~= pem_text(label@, header@, data@));
    out
}

fn header_text(algorithm: &str, level: SecurityLevel, variant: &str) -> (r: String)
    ensures
        r@ == "Algorithm: "@ + algorithm@ + "; Level: "@ + level_name(level) + "; Variant: "@ + variant@,
{
    let mut h = String::from_str("Algorithm: ");
    h.append(algorithm);
    h.append("; Level: ");
    h.append(level_name_text(level));
    h.append("; Variant: ");
    h.append(variant);
    h
}

proof fn lemma_header_pieces(level: SecurityLevel)
    ensures
        kem_header(level) == "Algorithm: "@ + "ML-KEM"@ + "; Level: "@ + level_name(level) + "; Variant: "@ + kem_variant_name(level),
        dsa_header(level) == "Algorithm: "@ + "ML-DSA"@ + "; Level: "@ + level_name(level) + "; Variant: "@ + dsa_variant_name(level),
{
    reveal_strlit("Algorithm: ");
    reveal_strlit("ML-KEM");
    reveal_strlit("ML-DSA");
    reveal_strlit("; Level: ");
    reveal_strlit("Algorithm: ML-KEM; Level: ");
    reveal_strlit("Algorithm: ML-DSA; Level: ");
    assert("Algorithm: ML-KEM; Level: "@ =~= "Algorithm: "@ + "ML-KEM"@ + "; Level: "@);
    assert("Algorithm: ML-DSA; Level: "@ =~= "Algorithm: "@ + "ML-DSA"@ + "; Level: "@);
}

/// Encode a KEM public key as PEM.
pub fn kem_public_key_to_pem(key: &KemPublicKey) -> (r: String)
    ensures
        r@ == pem_text(kem_label(), kem_header(key@.0), key@.1),
{
    proof {
        lemma_header_pieces(key@.0);
    }
    let header = header_text("ML-KEM", key.level(), kem_variant(key.level()));
    encode_pem("ML-KEM PUBLIC KEY", header.as_str(), key.as_bytes())
}

/// Encode a DSA public key as PEM.
pub fn dsa_public_key_to_pem(key: &DsaPublicKey) -> (r: String)
    ensures
        r@ == pem_text(dsa_label(), dsa_header(key@.0), key@.1),
{
    proof {
        lemma_header_pieces(key@.0);
    }
    let header = header_text("ML-DSA", key.level(), dsa_variant(key.level()));
    encode_pem("ML-DSA PUBLIC KEY", header.as_str(), key.as_bytes())
}


// ── Decode ────────────────────────────────────────────────────────────────────

/// The lines read so far: the bounds of the first one (the header) in the
/// text, if there is one, and the others joined.
spec fn lines_state(text: Seq<char>, header: Option<(usize, usize)>, joined: Seq<char>, lines: Seq<Seq<char>>) -> bool {
    match header {
        None => lines.len() == 0 && joined == Seq::<char>::empty(),
        Some((hs, he)) => {
            &&& hs <= he <= text.len()
            &&& lines.len() > 0
            &&& text.subrange(hs as int, he as int) == lines[0]
            &&& joined == concat_all(lines.skip(1))
        },
    }
}

/// `lines` with `t` added when `t` is not empty.
spec fn with_line(lines: Seq<Seq<char>>, t: Seq<char>) -> Seq<Seq<char>> {
    if t.len() == 0 {
        lines
    } else {
        lines.push(t)
    }
}

/// Takes the trimmed line `text[ts..te]`: the first non-empty one becomes
/// the header, the later ones are appended to the joined text.
fn add_line(
    text: &str,
    ts: usize,
    te: usize,
    header: &mut Option<(usize, usize)>,
    joined: &mut String,
    Ghost(lines): Ghost<Seq<Seq<char>>>,
)
    requires
        ts <= te <= text@.len(),
        lines_state(text@, *old(header), old(joined)@, lines),
    ensures
        lines_state(text@, *final(header), final(joined)@, with_line(lines, text@.subrange(ts as int, te as int))),
{
    let ghost t = text@.subrange(ts as int, te as int);
    if ts < te {
        if header.is_none() {
            *header = Some((ts, te));
            assert(lines.push(t).skip(1) =~= Seq::<Seq<char>>::empty());
            assert(lines.push(t) =~= seq![t]);
        } else {
            joined.append(text.substring_char(ts, te));
            assert(lines.push(t).skip(1) =~= lines.skip(1).push(t));
            assert(lines.push(t).skip(1).drop_last() =~= lines.skip(1));
        }
    }
}

fn marker(prefix: &str, label: &str) -> (r: String)
    ensures
        r@ == prefix@ + label@ + "-----"@,
{
    let mut m = String::from_str(prefix);
    m.append(label);
    m.append("-----");
    m
}

fn prefixed_error(prefix: &str, text: &str) -> (e: PqcError)
    ensures
        other_with(e, prefix@ + text@),
{
    let mut m = String::from_str(prefix);
    m.append(text);
    PqcError::Other(m)
}

/// The level that a header line names.
fn parse_level_from_header(header: &str) -> (r: Option<SecurityLevel>)
    ensures
        r == header_level(header@),
{
    let h = chars_of(header);
    if find_chars(&h, &chars_of("Level1")).is_some() {
        return Some(SecurityLevel::Level1);
    }
    if find_chars(&h, &chars_of("Level3")).is_some() {
        return Some(SecurityLevel::Level3);
    }
    if find_chars(&h, &chars_of("Level5")).is_some() {
        return Some(SecurityLevel::Level5);
    }
    None
}

fn decode_pem(pem: &str, expected_label: &str) -> (r: Result<(SecurityLevel, Vec<u8>)>)
    requires
        !pem_panics(pem@, expected_label@),
    ensures
        match r {
            Ok((level, bytes)) => read_pem(pem@, expected_label@) == Ok::<(SecurityLevel, Seq<u8>), PemFault>((level, bytes@)),
            Err(e) => read_pem(pem@, expected_label@) matches Err(f) && pem_error(e, f, pem@, expected_label@),
        },
{
    let begin = marker("-----BEGIN ", expected_label);
    let end = marker("-----END ", expected_label);
    let chars = chars_of(pem);
    let begin_chars = chars_of(begin.as_str());
    let end_chars = chars_of(end.as_str());
    let start = match find_chars(&chars, &begin_chars) {
        Some(i) => i,
        None => return Err(prefixed_error("Missing PEM header: ", begin.as_str())),
    };
    let finish = match find_chars(&chars, &end_chars) {
        Some(i) => i,
        None => return Err(prefixed_error("Missing PEM footer: ", end.as_str())),
    };
    proof {
        lemma_find(pem@, begin@);
        lemma_find(pem@, end@);
    }
    assert(matches_at(pem@, begin@, start as int));
    assert(matches_at(pem@, end@, finish as int));
    let body_start = start + begin_chars.len();
    let ghost label = expected_label@;
    let ghost body = pem@.subrange(body_start as int, finish as int);
    let mut header: Option<(usize, usize)> = None;
    let mut joined = String::new();
    let ghost mut done: Seq<Seq<char>> = Seq::empty();
    let ghost mut lines: Seq<Seq<char>> = Seq::empty();
    let mut seg_start = body_start;
    let mut k = body_start;
    assert(pem@.subrange(body_start as int, body_start as int) =~= Seq::<char>::empty());
    assert(done.push(pem@.subrange(seg_start as int, k as int)) =~= seq![Seq::<char>::empty()]);
    while k < finish
        invariant
            chars@ == pem@,
            body_start <= seg_start <= k <= finish <= pem@.len(),
            split_lines(pem@.subrange(body_start as int, k as int)) == done.push(pem@.subrange(seg_start as int, k as int)),
            lines == nonempty_trimmed(done),
            lines_state(pem@, header, joined@, lines),
        decreases finish - k,
    {
        let ghost prefix = pem@.subrange(body_start as int, k as int);
        assert(pem@.subrange(body_start as int, k + 1) =~= prefix.push(pem@[k as int]));
        assert(pem@.subrange(body_start as int, k + 1).drop_last() =~= prefix);
        if chars[k] == '\n' {
            let (ts, te) = trim_bounds(&chars, seg_start, k);
            let ghost seg = pem@.subrange(seg_start as int, k as int);
            add_line(pem, ts, te, &mut header, &mut joined, Ghost(lines));
            proof {
                assert(done.push(seg).drop_last() =~= done);
                done = done.push(seg);
                lines = with_line(lines, trim(seg));
            }
            seg_start = k + 1;
            assert(pem@.subrange(seg_start as int, k + 1) =~= Seq::<char>::empty());
        } else {
            assert(pem@.subrange(seg_start as int, k + 1) =~= pem@.subrange(seg_start as int, k as int).push(pem@[k as int]));
        }
        k = k + 1;
    }
    let (ts, te) = trim_bounds(&chars, seg_start, finish);
    let ghost seg = pem@.subrange(seg_start as int, finish as int);
    add_line(pem, ts, te, &mut header, &mut joined, Ghost(lines));
    proof {
        assert(done.push(seg).drop_last() =~= done);
        done = done.push(seg);
        lines = with_line(lines, trim(seg));
        assert(lines == text_lines(body));
        assert(lines == pem_body_lines(pem@, label));
    }
    let (hs, he) = match header {
        Some(h) => h,
        None => return Err(PqcError::Other(String::from_str("Empty PEM body"))),
    };
    let header_line = pem.substring_char(hs, he);
    let level = match parse_level_from_header(header_line) {
        Some(l) => l,
        None => return Err(prefixed_error("Cannot parse security level from PEM header: ", header_line)),
    };
    match base64_decode(joined.as_str()) {
        Ok(bytes) => {
            proof {
                lemma_b64_roundtrip(bytes@);
            }
            Ok((level, bytes))
        },
        Err(_) => Err(PqcError::Other(String::from_str("Invalid base64 in PEM body"))),
    }
}

/// Decode and validate a KEM public key from PEM.
///
/// The decoded bytes must have the level's public key length.
pub fn kem_public_key_from_pem(pem: &str) -> (r: Result<KemPublicKey>)
    requires
        !pem_panics(pem@, kem_label()),
    ensures
        match read_pem(pem@, kem_label()) {
            Ok((level, bytes)) => if bytes.len() == kem_sizes(level).public_key {
                r matches Ok(k) && k@ == (level, bytes)
            } else {
                r matches Err(e) && invalid_key_with(e, kem_bad_public_key_text(level))
            },
            Err(f) => r matches Err(e) && pem_error(e, f, pem@, kem_label()),
        },
{
    let (level, bytes) = decode_pem(pem, "ML-KEM PUBLIC KEY")?;
    KemPublicKey::from_validated(level, bytes)
}

/// Decode and validate a DSA public key from PEM.
///
/// The decoded bytes must have the level's public key length.
pub fn dsa_public_key_from_pem(pem: &str) -> (r: Result<DsaPublicKey>)
    requires
        !pem_panics(pem@, dsa_label()),
    ensures
        match read_pem(pem@, dsa_label()) {
            Ok((level, bytes)) => if bytes.len() == dsa_sizes(level).public_key {
                r matches Ok(k) && k@ == (level, bytes)
            } else {
                r matches Err(e) && invalid_key_with(e, dsa_bad_public_key_text(level))
            },
            Err(f) => r matches Err(e) && pem_error(e, f, pem@, dsa_label()),
        },
{
    let (level, bytes) = decode_pem(pem, "ML-DSA PUBLIC KEY")?;
    DsaPublicKey::from_validated(level, bytes)
}

/// Whether reading `pem` as a block with the given label would slice the
/// text with its end before its start (which panics); the `from_pem`
/// functions must not be called then.
pub fn pem_markers_out_of_order(pem: &str, is_kem: bool) -> (r: bool)
    ensures
        r == pem_panics(pem@, if is_kem { kem_label() } else { dsa_label() }),
{
    let label = if is_kem { "ML-KEM PUBLIC KEY" } else { "ML-DSA PUBLIC KEY" };
    let chars = chars_of(pem);
    let begin = marker("-----BEGIN ", label);
    let end = marker("-----END ", label);
    let b = chars_of(begin.as_str());
    let e = chars_of(end.as_str());
    match (find_chars(&chars, &b), find_chars(&chars, &e)) {
        (Some(start), Some(finish)) => {
            proof {
                lemma_find(chars@, b@);
            }
            assert(matches_at(chars@, b@, start as int));
            finish < start || finish - start < b.len()
        },
        _ => false,
    }
}


// ── Laws ──────────────────────────────────────────────────────────────────────

proof fn lemma_b64_text_plain(b: Seq<u8>)
    ensures
        forall|i: int| 0 <= i < b64_encoding(b).len() ==> !is_white(#[trigger] b64_encoding(b)[i]) && b64_encoding(b)[i] != '-',
{
    lemma_b64_text(b);
}

/// Lines cut at 64 characters hold no `-` when the text holds none.
proof fn lemma_wrap_no_dash(s: Seq<char>)
    requires
        forall|i: int| 0 <= i < s.len() ==> s[i] != '-',
    ensures
        forall|i: int| 0 <= i < wrap64(s).len() ==> wrap64(s)[i] != '-',
    decreases s.len(),
{
    if s.len() > 64 {
        lemma_wrap_no_dash(s.skip(64));
        let w = wrap64(s);
        assert forall|i: int| 0 <= i < w.len() implies w[i] != '-' by {
            if i < 64 {
                assert(w[i] == s[i]);
            } else if i > 64 {
                assert(w[i] == wrap64(s.skip(64))[i - 65]);
            }
        }
    }
}

/// Cutting text without white space into lines and reading the non-empty
/// trimmed lines back, joined, gives the text.
proof fn lemma_wrap_lines(s: Seq<char>)
    requires
        forall|i: int| 0 <= i < s.len() ==> !is_white(s[i]),
    ensures
        concat_all(nonempty_trimmed(split_lines(wrap64(s)))) == s,
    decreases s.len(),
{
    if s.len() <= 64 {
        assert(forall|i: int| 0 <= i < s.len() ==> s[i] != '\n');
        lemma_split_no_newline(s);
        lemma_nonempty_trimmed_one(s);
        if s.len() > 0 {
            lemma_trim_unchanged(s);
            lemma_concat_all_one(s);
        } else {
            lemma_trim_empty();
            assert(s =~= Seq::<char>::empty());
        }
    } else {
        let head = s.take(64);
        let rest = s.skip(64);
        lemma_wrap_lines(rest);
        assert(forall|i: int| 0 <= i < head.len() ==> head[i] != '\n');
        lemma_split_no_newline(head);
        lemma_split_concat(head, wrap64(rest));
        lemma_trim_unchanged(head);
        lemma_nonempty_trimmed_one(head);
        lemma_nonempty_trimmed_concat(seq![head], split_lines(wrap64(rest)));
        lemma_concat_all_concat(seq![head], nonempty_trimmed(split_lines(wrap64(rest))));
        lemma_concat_all_one(head);
        assert(head + rest =~= s);
    }
}

/// Reading a PEM text gives back the level its header names and the data,
/// when the opening line and the header hold no `-` directly followed by
/// `E`, and the header is one line with no white space at its ends.
proof fn lemma_read_pem_text(label: Seq<char>, header: Seq<char>, data: Seq<u8>, level: SecurityLevel)
    requires
        !has_pair(begin_marker(label), '-', 'E'),
        !has_pair(header, '-', 'E'),
        forall|i: int| 0 <= i < header.len() ==> header[i] != '\n',
        header.len() > 0,
        !is_white(header[0]),
        !is_white(header.last()),
        header_level(header) == Some(level),
    ensures
        !pem_panics(pem_text(label, header, data), label),
        read_pem(pem_text(label, header, data), label) == Ok::<(SecurityLevel, Seq<u8>), PemFault>((level, data)),
{
    reveal_strlit("-----BEGIN ");
    reveal_strlit("-----END ");
    reveal_strlit("-----");
    let n = seq!['\n'];
    let b = begin_marker(label);
    let e = end_marker(label);
    let h = header;
    let text = b64_encoding(data);
    let w = wrap64(text);
    let t = pem_text(label, header, data);
    assert(t =~= b + n + h + n + w + n + e + n);
    // The opening line is found at the start.
    assert(t.subrange(0, b.len() as int) =~= b);
    lemma_find_is(t, b, 0);
    // The closing line is found after the data, and not before.
    let p: int = (b.len() + h.len() + w.len() + 3) as int;
    assert(t.subrange(p, p + e.len()) =~= e);
    lemma_b64_text_plain(data);
    lemma_wrap_no_dash(text);
    let dashes = e.take(5);
    assert(dashes =~= seq!['-', '-', '-', '-', '-']);
    assert(e[4] == '-' && e[5] == 'E');
    assert(!has_pair(n, '-', 'E'));
    assert(!has_pair(dashes, '-', 'E'));
    assert(!has_pair(w, '-', 'E'));
    lemma_pair_concat(b, n, '-', 'E');
    lemma_pair_concat(b + n, h, '-', 'E');
    lemma_pair_concat(b + n + h, n, '-', 'E');
    lemma_pair_concat(b + n + h + n, w, '-', 'E');
    lemma_pair_concat(b + n + h + n + w, n, '-', 'E');
    lemma_pair_concat(b + n + h + n + w + n, dashes, '-', 'E');
    let x = b + n + h + n + w + n + dashes;
    assert(x =~= t.take(p + 5));
    assert forall|j: int| 0 <= j < p implies !matches_at(t, e, j) by {
        if matches_at(t, e, j) {
            assert(t[j + 4] == t.subrange(j, j + e.len())[4]);
            assert(t[j + 5] == t.subrange(j, j + e.len())[5]);
            assert(x[j + 4] == '-' && x[j + 5] == 'E');
        }
    }
    lemma_find_is(t, e, p);
    // The body's lines are the header and the base64 text cut into lines.
    let body = t.subrange(b.len() as int, p);
    let empty = Seq::<char>::empty();
    assert(body =~= empty + n + (h + n + (w + n + empty)));
    lemma_split_concat(empty, h + n + (w + n + empty));
    lemma_split_concat(h, w + n + empty);
    lemma_split_concat(w, empty);
    lemma_split_no_newline(h);
    let chunks = split_lines(w);
    assert(split_lines(body) =~= seq![empty] + seq![h] + chunks + seq![empty]);
    lemma_trim_empty();
    lemma_trim_unchanged(h);
    lemma_nonempty_trimmed_one(empty);
    lemma_nonempty_trimmed_one(h);
    lemma_nonempty_trimmed_concat(seq![empty] + seq![h], chunks);
    lemma_nonempty_trimmed_concat(seq![empty], seq![h]);
    lemma_nonempty_trimmed_concat(seq![empty] + seq![h] + chunks, seq![empty]);
    let lines = text_lines(body);
    assert(lines =~= seq![h] + nonempty_trimmed(chunks));
    assert(lines.skip(1) =~= nonempty_trimmed(chunks));
    lemma_wrap_lines(text);
    lemma_b64_roundtrip(data);
}

/// No `-` directly followed by `E` in the opening line of either label.
proof fn lemma_begin_markers()
    ensures
        !has_pair(begin_marker(kem_label()), '-', 'E'),
        !has_pair(begin_marker(dsa_label()), '-', 'E'),
{
    reveal_strlit("-----BEGIN ");
    reveal_strlit("-----");
    reveal_strlit("ML-KEM PUBLIC KEY");
    reveal_strlit("ML-DSA PUBLIC KEY");
    reveal_strlit("-----BEGIN ML-KEM PUBLIC KEY-----");
    reveal_strlit("-----BEGIN ML-DSA PUBLIC KEY-----");
    assert(begin_marker(kem_label()) =~= "-----BEGIN ML-KEM PUBLIC KEY-----"@);
    assert(begin_marker(dsa_label()) =~= "-----BEGIN ML-DSA PUBLIC KEY-----"@);
    reveal_with_fuel(pair_free, 40);
    assert(pair_free("-----BEGIN ML-KEM PUBLIC KEY-----"@, '-', 'E'));
    assert(pair_free("-----BEGIN ML-DSA PUBLIC KEY-----"@, '-', 'E'));
    lemma_pair_free("-----BEGIN ML-KEM PUBLIC KEY-----"@, '-', 'E');
    lemma_pair_free("-----BEGIN ML-DSA PUBLIC KEY-----"@, '-', 'E');
}

/// A header line is four pieces; a pair that occurs in no piece and across
/// no boundary between pieces occurs nowhere.
proof fn lemma_pair_compose(p1: Seq<char>, p2: Seq<char>, p3: Seq<char>, p4: Seq<char>, a: char, b: char)
    requires
        pair_free(p1, a, b),
        pair_free(p2, a, b),
        pair_free(p3, a, b),
        pair_free(p4, a, b),
        p1.len() > 0 && p2.len() > 0 && p3.len() > 0 && p4.len() > 0,
        !(p1.last() == a && p2[0] == b),
        !(p2.last() == a && p3[0] == b),
        !(p3.last() == a && p4[0] == b),
    ensures
        !has_pair(p1 + p2 + p3 + p4, a, b),
{
    lemma_pair_free(p1, a, b);
    lemma_pair_free(p2, a, b);
    lemma_pair_free(p3, a, b);
    lemma_pair_free(p4, a, b);
    lemma_pair_concat(p1, p2, a, b);
    lemma_pair_concat(p1 + p2, p3, a, b);
    lemma_pair_concat(p1 + p2 + p3, p4, a, b);
}

/// The fixed pieces of header lines hold no line break and none of the
/// pairs `-E`, `l1`, `l3`.
proof fn lemma_header_pieces_chars()
    ensures
        pair_free("Algorithm: ML-KEM; Level: "@, '-', 'E') && pair_free("Algorithm: ML-KEM; Level: "@, 'l', '1') && pair_free("Algorithm: ML-KEM; Level: "@, 'l', '3'),
        char_free("Algorithm: ML-KEM; Level: "@, '\n'),
        pair_free("Algorithm: ML-DSA; Level: "@, '-', 'E') && pair_free("Algorithm: ML-DSA; Level: "@, 'l', '1') && pair_free("Algorithm: ML-DSA; Level: "@, 'l', '3'),
        char_free("Algorithm: ML-DSA; Level: "@, '\n'),
        pair_free("; Variant: "@, '-', 'E') && pair_free("; Variant: "@, 'l', '1') && pair_free("; Variant: "@, 'l', '3'),
        char_free("; Variant: "@, '\n'),
        pair_free("Kyber512"@, '-', 'E') && pair_free("Kyber512"@, 'l', '1') && pair_free("Kyber512"@, 'l', '3'),
        char_free("Kyber512"@, '\n'),
        pair_free("Kyber768"@, '-', 'E') && pair_free("Kyber768"@, 'l', '1') && pair_free("Kyber768"@, 'l', '3'),
        char_free("Kyber768"@, '\n'),
        pair_free("Kyber1024"@, '-', 'E') && pair_free("Kyber1024"@, 'l', '1') && pair_free("Kyber1024"@, 'l', '3'),
        char_free("Kyber1024"@, '\n'),
        pair_free("Dilithium2"@, '-', 'E') && pair_free("Dilithium2"@, 'l', '1') && pair_free("Dilithium2"@, 'l', '3'),
        char_free("Dilithium2"@, '\n'),
        pair_free("Dilithium3"@, '-', 'E') && pair_free("Dilithium3"@, 'l', '1') && pair_free("Dilithium3"@, 'l', '3'),
        char_free("Dilithium3"@, '\n'),
        pair_free("Dilithium5"@, '-', 'E') && pair_free("Dilithium5"@, 'l', '1') && pair_free("Dilithium5"@, 'l', '3'),
        char_free("Dilithium5"@, '\n'),
{
    reveal_strlit("Algorithm: ML-KEM; Level: ");
    reveal_strlit("Algorithm: ML-DSA; Level: ");
    reveal_strlit("; Variant: ");
    reveal_strlit("Kyber512");
    reveal_strlit("Kyber768");
    reveal_strlit("Kyber1024");
    reveal_strlit("Dilithium2");
    reveal_strlit("Dilithium3");
    reveal_strlit("Dilithium5");
    reveal_with_fuel(pair_free, 30);
    reveal_with_fuel(char_free, 30);
}

/// The level names hold no line break and no `-E`; `Level3` and `Level5`
/// hold no `l1`, and `Level5` no `l3`.
proof fn lemma_level_names_chars()
    ensures
        pair_free("Level1"@, '-', 'E') && char_free("Level1"@, '\n'),
        pair_free("Level3"@, '-', 'E') && char_free("Level3"@, '\n') && pair_free("Level3"@, 'l', '1'),
        pair_free("Level5"@, '-', 'E') && char_free("Level5"@, '\n') && pair_free("Level5"@, 'l', '1')
            && pair_free("Level5"@, 'l', '3'),
{
    reveal_strlit("Level1");
    reveal_strlit("Level3");
    reveal_strlit("Level5");
    reveal_with_fuel(pair_free, 10);
    reveal_with_fuel(char_free, 10);
}

/// A header line made of four pieces without line breaks holds none.
proof fn lemma_no_newline_compose(p1: Seq<char>, p2: Seq<char>, p3: Seq<char>, p4: Seq<char>)
    requires
        char_free(p1, '\n'),
        char_free(p2, '\n'),
        char_free(p3, '\n'),
        char_free(p4, '\n'),
    ensures
        forall|i: int| 0 <= i < (p1 + p2 + p3 + p4).len() ==> (p1 + p2 + p3 + p4)[i] != '\n',
{
    lemma_char_free(p1, '\n');
    lemma_char_free(p2, '\n');
    lemma_char_free(p3, '\n');
    lemma_char_free(p4, '\n');
    let s = p1 + p2 + p3 + p4;
    assert forall|i: int| 0 <= i < s.len() implies s[i] != '\n' by {
        if i < p1.len() {
            assert(s[i] == p1[i]);
        } else if i < p1.len() + p2.len() {
            assert(s[i] == p2[i - p1.len()]);
        } else if i < p1.len() + p2.len() + p3.len() {
            assert(s[i] == p3[i - p1.len() - p2.len()]);
        } else {
            assert(s[i] == p4[i - p1.len() - p2.len() - p3.len()]);
        }
    }
}

/// What a header line of four pieces needs for reading it back to give `level`.
proof fn lemma_header_reads(p1: Seq<char>, p3: Seq<char>, p4: Seq<char>, level: SecurityLevel)
    requires
        p1.len() == 26,
        p3.len() > 0,
        p4.len() > 0,
        !is_white(p1[0]),
        !is_white(p4.last()),
        p1.last() == ' ',
        p3[0] == ';',
        p3.last() == ' ',
        pair_free(p1, '-', 'E') && pair_free(p1, 'l', '1') && pair_free(p1, 'l', '3') && char_free(p1, '\n'),
        pair_free(p3, '-', 'E') && pair_free(p3, 'l', '1') && pair_free(p3, 'l', '3') && char_free(p3, '\n'),
        pair_free(p4, '-', 'E') && pair_free(p4, 'l', '1') && pair_free(p4, 'l', '3') && char_free(p4, '\n'),
    ensures
        !has_pair(p1 + level_name(level) + p3 + p4, '-', 'E'),
        forall|i: int| 0 <= i < (p1 + level_name(level) + p3 + p4).len() ==> (p1 + level_name(level) + p3 + p4)[i] != '\n',
        !is_white((p1 + level_name(level) + p3 + p4)[0]),
        !is_white((p1 + level_name(level) + p3 + p4).last()),
        header_level(p1 + level_name(level) + p3 + p4) == Some(level),
{
    reveal_strlit("Level1");
    reveal_strlit("Level3");
    reveal_strlit("Level5");
    lemma_level_names_chars();
    let name = level_name(level);
    let h = p1 + name + p3 + p4;
    assert(name.len() == 6 && name[0] == 'L');
    lemma_pair_compose(p1, name, p3, p4, '-', 'E');
    lemma_no_newline_compose(p1, name, p3, p4);
    assert(h[0] == p1[0]);
    assert(h.last() == p4.last());
    let l1 = "Level1"@;
    let l3 = "Level3"@;
    let l5 = "Level5"@;
    lemma_find(h, l1);
    lemma_find(h, l3);
    lemma_find(h, l5);
    assert(h.subrange(26, 32) =~= name);
    assert(matches_at(h, name, 26));
    if level != SecurityLevel::Level1 {
        lemma_pair_compose(p1, name, p3, p4, 'l', '1');
        assert(l1[4] == 'l' && l1[5] == '1');
        assert forall|i: int| 0 <= i implies !matches_at(h, l1, i) by {
            lemma_no_pair_no_match(h, l1, 4, i);
        }
    }
    if level == SecurityLevel::Level5 {
        lemma_pair_compose(p1, name, p3, p4, 'l', '3');
        assert(l3[4] == 'l' && l3[5] == '3');
        assert forall|i: int| 0 <= i implies !matches_at(h, l3, i) by {
            lemma_no_pair_no_match(h, l3, 4, i);
        }
    }
}

/// Each KEM header line reads back as its level.
proof fn lemma_kem_header(level: SecurityLevel)
    ensures
        !has_pair(kem_header(level), '-', 'E'),
        forall|i: int| 0 <= i < kem_header(level).len() ==> kem_header(level)[i] != '\n',
        kem_header(level).len() > 0,
        !is_white(kem_header(level)[0]),
        !is_white(kem_header(level).last()),
        header_level(kem_header(level)) == Some(level),
{
    reveal_strlit("Algorithm: ML-KEM; Level: ");
    reveal_strlit("; Variant: ");
    reveal_strlit("Kyber512");
    reveal_strlit("Kyber768");
    reveal_strlit("Kyber1024");
    lemma_header_pieces_chars();
    lemma_header_reads("Algorithm: ML-KEM; Level: "@, "; Variant: "@, kem_variant_name(level), level);
}

/// Each DSA header line reads back as its level.
proof fn lemma_dsa_header(level: SecurityLevel)
    ensures
        !has_pair(dsa_header(level), '-', 'E'),
        forall|i: int| 0 <= i < dsa_header(level).len() ==> dsa_header(level)[i] != '\n',
        dsa_header(level).len() > 0,
        !is_white(dsa_header(level)[0]),
        !is_white(dsa_header(level).last()),
        header_level(dsa_header(level)) == Some(level),
{
    reveal_strlit("Algorithm: ML-DSA; Level: ");
    reveal_strlit("; Variant: ");
    reveal_strlit("Dilithium2");
    reveal_strlit("Dilithium3");
    reveal_strlit("Dilithium5");
    lemma_header_pieces_chars();
    lemma_header_reads("Algorithm: ML-DSA; Level: "@, "; Variant: "@, dsa_variant_name(level), level);
}

/// Reading back the PEM text of a KEM public key gives its level and key
/// bytes, and reading it cannot panic.
pub proof fn lemma_kem_pem_roundtrip(level: SecurityLevel, bytes: Seq<u8>)
    ensures
        !pem_panics(pem_text(kem_label(), kem_header(level), bytes), kem_label()),
        read_pem(pem_text(kem_label(), kem_header(level), bytes), kem_label())
            == Ok::<(SecurityLevel, Seq<u8>), PemFault>((level, bytes)),
{
    lemma_begin_markers();
    lemma_kem_header(level);
    lemma_read_pem_text(kem_label(), kem_header(level), bytes, level);
}

/// Reading back the PEM text of a DSA public key gives its level and key
/// bytes, and reading it cannot panic.
pub proof fn lemma_dsa_pem_roundtrip(level: SecurityLevel, bytes: Seq<u8>)
    ensures
        !pem_panics(pem_text(dsa_label(), dsa_header(level), bytes), dsa_label()),
        read_pem(pem_text(dsa_label(), dsa_header(level), bytes), dsa_label())
            == Ok::<(SecurityLevel, Seq<u8>), PemFault>((level, bytes)),
{
    lemma_begin_markers();
    lemma_dsa_header(level);
    lemma_read_pem_text(dsa_label(), dsa_header(level), bytes, level);
}

/// A text without `a` holds no pair that starts with `a`.
proof fn lemma_char_free_pair_free(s: Seq<char>, a: char, b: char)
    requires
        char_free(s, a),
    ensures
        pair_free(s, a, b),
    decreases s.len(),
{
    if s.len() >= 2 {
        lemma_char_free_pair_free(s.skip(1), a, b);
    }
}

/// The opening and closing lines of each label, and the fixed pieces of the
/// header lines, hold no `-D` (KEM) or no `-K` (DSA); the level and
/// variant names and the middle piece hold no `-` at all.
proof fn lemma_kind_pairs()
    ensures
        !has_pair(begin_marker(kem_label()), '-', 'D'),
        !has_pair(end_marker(kem_label()), '-', 'D'),
        !has_pair(begin_marker(dsa_label()), '-', 'K'),
        !has_pair(end_marker(dsa_label()), '-', 'K'),
        pair_free("Algorithm: ML-KEM; Level: "@, '-', 'D'),
        pair_free("Algorithm: ML-DSA; Level: "@, '-', 'K'),
        char_free("; Variant: "@, '-'),
        char_free("Kyber512"@, '-') && char_free("Kyber768"@, '-') && char_free("Kyber1024"@, '-'),
        char_free("Dilithium2"@, '-') && char_free("Dilithium3"@, '-') && char_free("Dilithium5"@, '-'),
        char_free("Level1"@, '-') && char_free("Level3"@, '-') && char_free("Level5"@, '-'),
{
    reveal_strlit("-----BEGIN ");
    reveal_strlit("-----END ");
    reveal_strlit("-----");
    reveal_strlit("ML-KEM PUBLIC KEY");
    reveal_strlit("ML-DSA PUBLIC KEY");
    reveal_strlit("-----BEGIN ML-KEM PUBLIC KEY-----");
    reveal_strlit("-----BEGIN ML-DSA PUBLIC KEY-----");
    reveal_strlit("-----END ML-KEM PUBLIC KEY-----");
    reveal_strlit("-----END ML-DSA PUBLIC KEY-----");
    reveal_strlit("Algorithm: ML-KEM; Level: ");
    reveal_strlit("Algorithm: ML-DSA; Level: ");
    reveal_strlit("; Variant: ");
    reveal_strlit("Kyber512");
    reveal_strlit("Kyber768");
    reveal_strlit("Kyber1024");
    reveal_strlit("Dilithium2");
    reveal_strlit("Dilithium3");
    reveal_strlit("Dilithium5");
    reveal_strlit("Level1");
    reveal_strlit("Level3");
    reveal_strlit("Level5");
    assert(begin_marker(kem_label()) =~= "-----BEGIN ML-KEM PUBLIC KEY-----"@);
    assert(begin_marker(dsa_label()) =~= "-----BEGIN ML-DSA PUBLIC KEY-----"@);
    assert(end_marker(kem_label()) =~= "-----END ML-KEM PUBLIC KEY-----"@);
    assert(end_marker(dsa_label()) =~= "-----END ML-DSA PUBLIC KEY-----"@);
    reveal_with_fuel(pair_free, 40);
    reveal_with_fuel(char_free, 15);
    assert(pair_free("-----BEGIN ML-KEM PUBLIC KEY-----"@, '-', 'D'));
    assert(pair_free("-----END ML-KEM PUBLIC KEY-----"@, '-', 'D'));
    assert(pair_free("-----BEGIN ML-DSA PUBLIC KEY-----"@, '-', 'K'));
    assert(pair_free("-----END ML-DSA PUBLIC KEY-----"@, '-', 'K'));
    lemma_pair_free("-----BEGIN ML-KEM PUBLIC KEY-----"@, '-', 'D');
    lemma_pair_free("-----END ML-KEM PUBLIC KEY-----"@, '-', 'D');
    lemma_pair_free("-----BEGIN ML-DSA PUBLIC KEY-----"@, '-', 'K');
    lemma_pair_free("-----END ML-DSA PUBLIC KEY-----"@, '-', 'K');
}

/// A header line of four pieces holds no `-` followed by `a` when the first
/// piece holds none and the others hold no `-`.
proof fn lemma_header_no_dash_pair(p1: Seq<char>, p3: Seq<char>, p4: Seq<char>, level: SecurityLevel, a: char)
    requires
        p1.len() > 0 && p3.len() > 0 && p4.len() > 0,
        p1.last() != '-',
        pair_free(p1, '-', a),
        char_free(p3, '-'),
        char_free(p4, '-'),
        char_free(level_name(level), '-'),
    ensures
        !has_pair(p1 + level_name(level) + p3 + p4, '-', a),
{
    reveal_strlit("Level1");
    reveal_strlit("Level3");
    reveal_strlit("Level5");
    let name = level_name(level);
    lemma_char_free_pair_free(name, '-', a);
    lemma_char_free_pair_free(p3, '-', a);
    lemma_char_free_pair_free(p4, '-', a);
    lemma_char_free(name, '-');
    lemma_char_free(p3, '-');
    assert(name.len() == 6);
    lemma_pair_compose(p1, name, p3, p4, '-', a);
}

/// A PEM text holds no `-` followed by `a` (not a line break) when its
/// opening line, header and closing line hold none.
proof fn lemma_pem_text_no_dash_pair(label: Seq<char>, header: Seq<char>, data: Seq<u8>, a: char)
    requires
        a != '\n',
        !has_pair(begin_marker(label), '-', a),
        !has_pair(header, '-', a),
        !has_pair(end_marker(label), '-', a),
    ensures
        !has_pair(pem_text(label, header, data), '-', a),
{
    let n = seq!['\n'];
    let b = begin_marker(label);
    let e = end_marker(label);
    let h = header;
    let text = b64_encoding(data);
    let w = wrap64(text);
    lemma_b64_text_plain(data);
    lemma_wrap_no_dash(text);
    assert(!has_pair(n, '-', a));
    assert(!has_pair(w, '-', a));
    lemma_pair_concat(b, n, '-', a);
    lemma_pair_concat(b + n, h, '-', a);
    lemma_pair_concat(b + n + h, n, '-', a);
    lemma_pair_concat(b + n + h + n, w, '-', a);
    lemma_pair_concat(b + n + h + n + w, n, '-', a);
    lemma_pair_concat(b + n + h + n + w + n, e, '-', a);
    lemma_pair_concat(b + n + h + n + w + n + e, n, '-', a);
    assert(pem_text(label, header, data) =~= b + n + h + n + w + n + e + n);
}

/// The PEM text of a KEM public key is refused when read as a DSA public
/// key, and that of a DSA public key when read as a KEM public key: no
/// opening line of the other kind is found, and reading cannot panic.
pub proof fn lemma_pem_kind_mismatch(level: SecurityLevel, bytes: Seq<u8>)
    ensures
        !pem_panics(pem_text(kem_label(), kem_header(level), bytes), dsa_label()),
        read_pem(pem_text(kem_label(), kem_header(level), bytes), dsa_label())
            == Err::<(SecurityLevel, Seq<u8>), PemFault>(PemFault::MissingHeader),
        !pem_panics(pem_text(dsa_label(), dsa_header(level), bytes), kem_label()),
        read_pem(pem_text(dsa_label(), dsa_header(level), bytes), kem_label())
            == Err::<(SecurityLevel, Seq<u8>), PemFault>(PemFault::MissingHeader),
{
    reveal_strlit("-----BEGIN ");
    reveal_strlit("ML-KEM PUBLIC KEY");
    reveal_strlit("ML-DSA PUBLIC KEY");
    reveal_strlit("Algorithm: ML-KEM; Level: ");
    reveal_strlit("Algorithm: ML-DSA; Level: ");
    reveal_strlit("; Variant: ");
    reveal_strlit("Kyber512");
    reveal_strlit("Kyber768");
    reveal_strlit("Kyber1024");
    reveal_strlit("Dilithium2");
    reveal_strlit("Dilithium3");
    reveal_strlit("Dilithium5");
    lemma_kind_pairs();
    let kem_p1 = "Algorithm: ML-KEM; Level: "@;
    let dsa_p1 = "Algorithm: ML-DSA; Level: "@;
    lemma_header_no_dash_pair(kem_p1, "; Variant: "@, kem_variant_name(level), level, 'D');
    lemma_header_no_dash_pair(dsa_p1, "; Variant: "@, dsa_variant_name(level), level, 'K');
    let tk = pem_text(kem_label(), kem_header(level), bytes);
    let td = pem_text(dsa_label(), dsa_header(level), bytes);
    lemma_pem_text_no_dash_pair(kem_label(), kem_header(level), bytes, 'D');
    lemma_pem_text_no_dash_pair(dsa_label(), dsa_header(level), bytes, 'K');
    let bd = begin_marker(dsa_label());
    let bk = begin_marker(kem_label());
    assert(bd[13] == '-' && bd[14] == 'D');
    assert(bk[13] == '-' && bk[14] == 'K');
    assert forall|i: int| 0 <= i implies !matches_at(tk, bd, i) by {
        lemma_no_pair_no_match(tk, bd, 13, i);
    }
    assert forall|i: int| 0 <= i implies !matches_at(td, bk, i) by {
        lemma_no_pair_no_match(td, bk, 13, i);
    }
    lemma_find(tk, bd);
    lemma_find(td, bk);
}

/// The header line of a KEM public key's PEM text names the key's own
/// level and its own Kyber variant: Kyber512 at Level1, Kyber768 at Level3,
/// Kyber1024 at Level5; that of a DSA public key names Dilithium2,
/// Dilithium3 and Dilithium5 in the same way.
pub proof fn lemma_pem_headers_name_the_variant(level: SecurityLevel)
    ensures
        kem_header(level) == match level {
            SecurityLevel::Level1 => "Algorithm: ML-KEM; Level: Level1; Variant: Kyber512"@,
            SecurityLevel::Level3 => "Algorithm: ML-KEM; Level: Level3; Variant: Kyber768"@,
            SecurityLevel::Level5 => "Algorithm: ML-KEM; Level: Level5; Variant: Kyber1024"@,
        },
        dsa_header(level) == match level {
            SecurityLevel::Level1 => "Algorithm: ML-DSA; Level: Level1; Variant: Dilithium2"@,
            SecurityLevel::Level3 => "Algorithm: ML-DSA; Level: Level3; Variant: Dilithium3"@,
            SecurityLevel::Level5 => "Algorithm: ML-DSA; Level: Level5; Variant: Dilithium5"@,
        },
{
    reveal_strlit("Algorithm: ML-KEM; Level: Level1; Variant: Kyber512");
    reveal_strlit("Algorithm: ML-KEM; Level: Level3; Variant: Kyber768");
    reveal_strlit("Algorithm: ML-KEM; Level: Level5; Variant: Kyber1024");
    reveal_strlit("Algorithm: ML-DSA; Level: Level1; Variant: Dilithium2");
    reveal_strlit("Algorithm: ML-DSA; Level: Level3; Variant: Dilithium3");
    reveal_strlit("Algorithm: ML-DSA; Level: Level5; Variant: Dilithium5");
    reveal_strlit("Algorithm: ML-KEM; Level: ");
    reveal_strlit("Algorithm: ML-DSA; Level: ");
    reveal_strlit("; Variant: ");
    reveal_strlit("Level1");
    reveal_strlit("Level3");
    reveal_strlit("Level5");
    reveal_strlit("Kyber512");
    reveal_strlit("Kyber768");
    reveal_strlit("Kyber1024");
    reveal_strlit("Dilithium2");
    reveal_strlit("Dilithium3");
    reveal_strlit("Dilithium5");
    match level {
        SecurityLevel::Level1 => {
            assert(kem_header(level) =~= "Algorithm: ML-KEM; Level: Level1; Variant: Kyber512"@);
            assert(dsa_header(level) =~= "Algorithm: ML-DSA; Level: Level1; Variant: Dilithium2"@);
        },
        SecurityLevel::Level3 => {
            assert(kem_header(level) =~= "Algorithm: ML-KEM; Level: Level3; Variant: Kyber768"@);
            assert(dsa_header(level) =~= "Algorithm: ML-DSA; Level: Level3; Variant: Dilithium3"@);
        },
        SecurityLevel::Level5 => {
            assert(kem_header(level) =~= "Algorithm: ML-KEM; Level: Level5; Variant: Kyber1024"@);
            assert(dsa_header(level) =~= "Algorithm: ML-DSA; Level: Level5; Variant: Dilithium5"@);
        },
    }
}

} // verus!
