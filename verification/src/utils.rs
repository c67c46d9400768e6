//! Hex encoding and constant-time comparison of byte strings.
//!
//! When comparing shared secrets extracted via `.as_bytes()`, use `ct_eq()`
//! rather than `==` on raw byte slices: slice equality is not constant-time.
#![allow(unused_imports)]

use crate::error::{PqcError, Result};
use subtle::ConstantTimeEq;
use vstd::prelude::*;

verus! {

// ── Hex text ──────────────────────────────────────────────────────────────────

/// The lowercase hex digit for `n` (`n < 16`).
pub open spec fn hex_digit(n: int) -> char {
    if n < 10 {
        (48 + n) as char
    } else {
        (87 + n) as char
    }
}

/// Lowercase hex text of `b`: two digits per byte, high nibble first.
pub open spec fn hex_encoding(b: Seq<u8>) -> Seq<char>
    decreases b.len(),
{
    if b.len() == 0 {
        Seq::empty()
    } else {
        seq![hex_digit(b[0] as int / 16), hex_digit(b[0] as int % 16)] + hex_encoding(b.drop_first())
    }
}

/// The value of a hex digit of either case, or `None` for any other character.
pub open spec fn hex_value(c: char) -> Option<int> {
    if 48 <= c as int <= 57 {
        Some(c as int - 48)
    } else if 97 <= c as int <= 102 {
        Some(c as int - 87)
    } else if 65 <= c as int <= 70 {
        Some(c as int - 55)
    } else {
        None
    }
}

/// The bytes that hex text `s` denotes (digits of either case), or `None`
/// when `s` has an odd length or a character that is not a hex digit.
pub open spec fn hex_decoding(s: Seq<char>) -> Option<Seq<u8>>
    decreases s.len(),
{
    if s.len() == 0 {
        Some(Seq::empty())
    } else if s.len() == 1 {
        None
    } else {
        match (hex_value(s[0]), hex_value(s[1]), hex_decoding(s.skip(2))) {
            (Some(h), Some(l), Some(rest)) => Some(seq![(h * 16 + l) as u8] + rest),
            _ => None,
        }
    }
}

/// The hex text of `b` is twice as long as `b`.
pub proof fn lemma_hex_encoding_len(b: Seq<u8>)
    ensures
        hex_encoding(b).len() == 2 * b.len(),
    decreases b.len(),
{
    if b.len() > 0 {
        lemma_hex_encoding_len(b.drop_first());
    }
}

/// Hex text of a concatenation is the concatenation of the hex texts.
pub proof fn lemma_hex_encoding_append(a: Seq<u8>, b: Seq<u8>)
    ensures
        hex_encoding(a + b) == hex_encoding(a) + hex_encoding(b),
    decreases a.len(),
{
    if a.len() == 0 {
        assert(a + b =~= b);
    } else {
        assert((a + b).drop_first() =~= a.drop_first() + b);
        lemma_hex_encoding_append(a.drop_first(), b);
        assert(hex_encoding(a + b) =~= hex_encoding(a) + hex_encoding(b));
    }
}

/// Decoding the hex text of `b` gives back `b`.
pub proof fn lemma_hex_roundtrip(b: Seq<u8>)
    ensures
        hex_decoding(hex_encoding(b)) == Some(b),
    decreases b.len(),
{
    if b.len() > 0 {
        let s = hex_encoding(b);
        lemma_hex_roundtrip(b.drop_first());
        assert(s.skip(2) =~= hex_encoding(b.drop_first()));
        assert(b[0] / 16 * 16 + b[0] % 16 == b[0]);
        assert(seq![b[0]] + b.drop_first() =~= b);
    }
}

/// Encodes bytes as lowercase hex text with `hex::encode`.
#[verifier::external_body]
fn hex_encode(data: &[u8]) -> (r: String)
    ensures
        r@ == hex_encoding(data@),
{
    hex::encode(data)
}

#[verifier::external_type_specification]
#[verifier::external_body]
pub struct ExFromHexError(hex::FromHexError);

/// Decodes hex text (digits of either case) with `hex::decode`; it fails
/// exactly when the text has an odd length or a non-hex character.
#[verifier::external_body]
fn hex_decode(s: &str) -> (r: core::result::Result<Vec<u8>, hex::FromHexError>)
    ensures
        match r {
            Ok(v) => hex_decoding(s@) == Some(v@),
            Err(_) => hex_decoding(s@) is None,
        },
{
    hex::decode(s)
}

/// Encode bytes as lowercase hex.
pub fn to_hex(bytes: &[u8]) -> (r: String)
    ensures
        r@ == hex_encoding(bytes@),
{
    hex_encode(bytes)
}

/// Decode a hex string to bytes.
pub fn from_hex(s: &str) -> (r: Result<Vec<u8>>)
    ensures
        match r {
            Ok(v) => hex_decoding(s@) == Some(v@),
            Err(e) => hex_decoding(s@) is None && e is HexDecodeError,
        },
{
    match hex_decode(s) {
        Ok(v) => Ok(v),
        Err(e) => Err(PqcError::HexDecodeError(e.to_string())),
    }
}

// ── Text helpers ──────────────────────────────────────────────────────────────

/// The characters of `s`, in order.
pub fn chars_of(s: &str) -> (r: Vec<char>)
    ensures
        r@ == s@,
{
    let mut out: Vec<char> = Vec::new();
    for c in it: s.chars()
        invariant
            it.seq() == s@,
            out@ == it.seq().subrange(0, it.index() as int),
    {
        out.push(c);
    }
    out
}

/// Whether two strings hold the same characters.
pub fn str_eq(a: &str, b: &str) -> (r: bool)
    ensures
        r == (a@ == b@),
{
    let x = chars_of(a);
    let y = chars_of(b);
    if x.len() != y.len() {
        return false;
    }
    let mut i: usize = 0;
    while i < x.len()
        invariant
            x@ == a@,
            y@ == b@,
            x@.len() == y@.len(),
            i <= x@.len(),
            forall|j: int| 0 <= j < i ==> x@[j] == y@[j],
        decreases x@.len() - i,
    {
        if x[i] != y[i] {
            return false;
        }
        i = i + 1;
    }
    assert(x@ =~= y@);
    true
}

// ── Constant-time comparison ──────────────────────────────────────────────────

/// `subtle`'s `ConstantTimeEq` on byte slices, turned into a `bool`: true
/// exactly when both slices have the same length and the same bytes.
#[verifier::external_body]
fn slices_ct_eq(a: &[u8], b: &[u8]) -> (r: bool)
    ensures
        r == (a@ == b@),
{
    bool::from(a.ct_eq(b))
}

/// Constant-time byte slice comparison.
///
/// Returns `true` only if both slices have identical length and content.
/// The comparison time is proportional to the length of the slices,
/// not to how many bytes differ.
pub fn ct_eq(a: &[u8], b: &[u8]) -> (r: bool)
    ensures
        r == (a@ == b@),
{
    if a.len() != b.len() {
        return false;
    }
    slices_ct_eq(a, b)
}

} // verus!
