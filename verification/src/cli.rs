//! The decisions of the `pqc-vault` command-line tool: reading a level
//! number, checking passphrases, naming the public key file, recognising a
//! key file's kind and describing a key bundle.
#![allow(unused_imports)]

use crate::serial::{level_number, level_of_number};
use crate::pem::{dsa_header, dsa_variant_name, kem_header, kem_variant_name};
use crate::text::{contains_text, decimal_text, find, lemma_find, matches_at, push_decimal};
use crate::level_description;
use crate::utils::str_eq;
use crate::SecurityLevel;
use vstd::prelude::*;
use vstd::string::*;

verus! {

/// The error text for a level number other than 1, 3 or 5.
pub open spec fn invalid_level_text(n: u8) -> Seq<char> {
    "Invalid security level: "@ + decimal_text(n as nat) + ". Must be 1, 3, or 5."@
}

/// The security level that a command-line level number names.
pub fn parse_level(n: u8) -> (r: Result<SecurityLevel, String>)
    ensures
        match r {
            Ok(level) => level_of_number(n) == Some(level),
            Err(m) => level_of_number(n) is None && m@ == invalid_level_text(n),
        },
{
    match n {
        1 => Ok(SecurityLevel::Level1),
        3 => Ok(SecurityLevel::Level3),
        5 => Ok(SecurityLevel::Level5),
        _ => {
            let mut m = String::from_str("Invalid security level: ");
            push_decimal(&mut m, n as u64);
            m.append(". Must be 1, 3, or 5.");
            Err(m)
        },
    }
}

/// The number of a security level: 1, 3 or 5.
pub fn level_num(level: SecurityLevel) -> (r: u8)
    ensures
        r == level_number(level),
{
    match level {
        SecurityLevel::Level1 => 1,
        SecurityLevel::Level3 => 3,
        SecurityLevel::Level5 => 5,
    }
}

/// The file name of the public key written beside a private key file named
/// `name`: the name with `.pub` appended.
pub fn pub_file_name(name: &str) -> (r: String)
    ensures
        r@ == name@ + ".pub"@,
{
    let mut r = String::from_str(name);
    r.append(".pub");
    r
}

/// A passphrase is refused when it is empty.
pub fn check_passphrase(pass: &str) -> (r: Result<(), String>)
    ensures
        match r {
            Ok(()) => pass@.len() > 0,
            Err(m) => pass@.len() == 0 && m@ == "Passphrase cannot be empty"@,
        },
{
    if pass.unicode_len() == 0 {
        return Err(String::from_str("Passphrase cannot be empty"));
    }
    Ok(())
}

/// A new passphrase is refused when it is empty, then when its confirmation
/// differs.
pub fn check_new_passphrase(pass: &str, confirm: &str) -> (r: Result<(), String>)
    ensures
        match r {
            Ok(()) => pass@.len() > 0 && pass@ == confirm@,
            Err(m) => if pass@.len() == 0 {
                m@ == "Passphrase cannot be empty"@
            } else {
                pass@ != confirm@ && m@ == "Passphrases do not match"@
            },
        },
{
    if pass.unicode_len() == 0 {
        return Err(String::from_str("Passphrase cannot be empty"));
    }
    if !str_eq(pass, confirm) {
        return Err(String::from_str("Passphrases do not match"));
    }
    Ok(())
}

/// Whether a public key file's text names ML-KEM.
pub fn names_kem(pem: &str) -> (r: bool)
    ensures
        r == (find(pem@, "ML-KEM"@) is Some),
{
    contains_text(pem, "ML-KEM")
}

/// Whether a public key file's text names ML-DSA.
pub fn names_dsa(pem: &str) -> (r: bool)
    ensures
        r == (find(pem@, "ML-DSA"@) is Some),
{
    contains_text(pem, "ML-DSA")
}

/// The algorithm that a bundle's kind names.
pub open spec fn bundle_algorithm_text(kind: Seq<char>) -> Seq<char> {
    if kind == "kem"@ {
        "ML-KEM (Kyber)"@
    } else if kind == "dsa"@ {
        "ML-DSA (Dilithium)"@
    } else {
        "Unknown"@
    }
}

/// The algorithm that a bundle's kind names.
pub fn bundle_algorithm(kind: &str) -> (r: &'static str)
    ensures
        r@ == bundle_algorithm_text(kind@),
{
    if str_eq(kind, "kem") {
        "ML-KEM (Kyber)"
    } else if str_eq(kind, "dsa") {
        "ML-DSA (Dilithium)"
    } else {
        "Unknown"
    }
}

/// The variant that a bundle's kind and level number name.
pub open spec fn bundle_variant_text(kind: Seq<char>, level: u64) -> Seq<char> {
    if kind == "kem"@ {
        if level == 1 {
            "Kyber512  (~AES-128)"@
        } else if level == 3 {
            "Kyber768  (~AES-192)"@
        } else if level == 5 {
            "Kyber1024 (~AES-256)"@
        } else {
            "Unknown"@
        }
    } else if kind == "dsa"@ {
        if level == 1 {
            "Dilithium2 (~AES-128)"@
        } else if level == 3 {
            "Dilithium3 (~AES-192)"@
        } else if level == 5 {
            "Dilithium5 (~AES-256)"@
        } else {
            "Unknown"@
        }
    } else {
        "Unknown"@
    }
}

/// The variant that a bundle's kind and level number name.
pub fn bundle_variant(kind: &str, level: u64) -> (r: &'static str)
    ensures
        r@ == bundle_variant_text(kind@, level),
{
    if str_eq(kind, "kem") {
        match level {
            1 => "Kyber512  (~AES-128)",
            3 => "Kyber768  (~AES-192)",
            5 => "Kyber1024 (~AES-256)",
            _ => "Unknown",
        }
    } else if str_eq(kind, "dsa") {
        match level {
            1 => "Dilithium2 (~AES-128)",
            3 => "Dilithium3 (~AES-192)",
            5 => "Dilithium5 (~AES-256)",
            _ => "Unknown",
        }
    } else {
        "Unknown"
    }
}

/// Text `pat` that occurs in `s` at `k` is found there or earlier.
proof fn lemma_occurs(s: Seq<char>, pat: Seq<char>, k: int)
    requires
        matches_at(s, pat, k),
    ensures
        find(s, pat) is Some,
{
    lemma_find(s, pat);
}

/// The variant that inspecting a bundle shows for a KEM or DSA bundle of a
/// level agrees with that level: it begins with the level's Kyber or
/// Dilithium variant name (the one its PEM header names), which the level's
/// description names too, and it ends with the strength `(~AES-…)` that the
/// level's description gives.
pub proof fn lemma_bundle_variant_agrees_with_level(level: SecurityLevel)
    ensures
        ({
            let v = bundle_variant_text("kem"@, level_number(level) as u64);
            let d = level_description(level);
            &&& v.len() > 10
            &&& v.take(kem_variant_name(level).len() as int) == kem_variant_name(level)
            &&& find(d, kem_variant_name(level)) is Some
            &&& v.skip(v.len() - 10).take(6) == "(~AES-"@
            &&& find(d, v.skip(v.len() - 10)) is Some
        }),
        ({
            let v = bundle_variant_text("dsa"@, level_number(level) as u64);
            let d = level_description(level);
            &&& v.len() > 10
            &&& v.take(dsa_variant_name(level).len() as int) == dsa_variant_name(level)
            &&& find(d, dsa_variant_name(level)) is Some
            &&& v.skip(v.len() - 10).take(6) == "(~AES-"@
            &&& find(d, v.skip(v.len() - 10)) is Some
        }),
{
    reveal_strlit("(~AES-");
    reveal_strlit("Dilithium2");
    reveal_strlit("Dilithium2 (~AES-128)");
    reveal_strlit("Dilithium3");
    reveal_strlit("Dilithium3 (~AES-192)");
    reveal_strlit("Dilithium5");
    reveal_strlit("Dilithium5 (~AES-256)");
    reveal_strlit("Kyber1024");
    reveal_strlit("Kyber1024 (~AES-256)");
    reveal_strlit("Kyber512");
    reveal_strlit("Kyber512  (~AES-128)");
    reveal_strlit("Kyber768");
    reveal_strlit("Kyber768  (~AES-192)");
    reveal_strlit("Level1: Kyber512/Dilithium2 (~AES-128)");
    reveal_strlit("Level3: Kyber768/Dilithium3 (~AES-192) — Recommended");
    reveal_strlit("Level5: Kyber1024/Dilithium5 (~AES-256) — Maximum");
    reveal_strlit("Unknown");
    reveal_strlit("dsa");
    reveal_strlit("kem");
    let d = level_description(level);
    let kv_ = bundle_variant_text("kem"@, level_number(level) as u64);
    let dv_ = bundle_variant_text("dsa"@, level_number(level) as u64);
    assert("kem"@ != "dsa"@) by {
        assert("kem"@[0] != "dsa"@[0]);
    }
    match level {
        SecurityLevel::Level1 => {
            assert(d.subrange(8, 16) =~= kem_variant_name(level));
            assert(d.subrange(17, 27) =~= dsa_variant_name(level));
            assert(d.subrange(28, 38) =~= kv_.skip(kv_.len() - 10));
            assert(d.subrange(28, 38) =~= dv_.skip(dv_.len() - 10));
            assert(kv_.take(kem_variant_name(level).len() as int) =~= kem_variant_name(level));
            assert(dv_.take(dsa_variant_name(level).len() as int) =~= dsa_variant_name(level));
            assert(kv_.skip(kv_.len() - 10).take(6) =~= "(~AES-"@);
            assert(dv_.skip(dv_.len() - 10).take(6) =~= "(~AES-"@);
            assert(matches_at(d, kem_variant_name(level), 8));
            assert(matches_at(d, dsa_variant_name(level), 17));
            assert(matches_at(d, kv_.skip(kv_.len() - 10), 28));
            assert(matches_at(d, dv_.skip(dv_.len() - 10), 28));
        },
        SecurityLevel::Level3 => {
            assert(d.subrange(8, 16) =~= kem_variant_name(level));
            assert(d.subrange(17, 27) =~= dsa_variant_name(level));
            assert(d.subrange(28, 38) =~= kv_.skip(kv_.len() - 10));
            assert(d.subrange(28, 38) =~= dv_.skip(dv_.len() - 10));
            assert(kv_.take(kem_variant_name(level).len() as int) =~= kem_variant_name(level));
            assert(dv_.take(dsa_variant_name(level).len() as int) =~= dsa_variant_name(level));
            assert(kv_.skip(kv_.len() - 10).take(6) =~= "(~AES-"@);
            assert(dv_.skip(dv_.len() - 10).take(6) =~= "(~AES-"@);
            assert(matches_at(d, kem_variant_name(level), 8));
            assert(matches_at(d, dsa_variant_name(level), 17));
            assert(matches_at(d, kv_.skip(kv_.len() - 10), 28));
            assert(matches_at(d, dv_.skip(dv_.len() - 10), 28));
        },
        SecurityLevel::Level5 => {
            assert(d.subrange(8, 17) =~= kem_variant_name(level));
            assert(d.subrange(18, 28) =~= dsa_variant_name(level));
            assert(d.subrange(29, 39) =~= kv_.skip(kv_.len() - 10));
            assert(d.subrange(29, 39) =~= dv_.skip(dv_.len() - 10));
            assert(kv_.take(kem_variant_name(level).len() as int) =~= kem_variant_name(level));
            assert(dv_.take(dsa_variant_name(level).len() as int) =~= dsa_variant_name(level));
            assert(kv_.skip(kv_.len() - 10).take(6) =~= "(~AES-"@);
            assert(dv_.skip(dv_.len() - 10).take(6) =~= "(~AES-"@);
            assert(matches_at(d, kem_variant_name(level), 8));
            assert(matches_at(d, dsa_variant_name(level), 18));
            assert(matches_at(d, kv_.skip(kv_.len() - 10), 29));
            assert(matches_at(d, dv_.skip(dv_.len() - 10), 29));
        },
    }
    lemma_occurs(d, kem_variant_name(level), find_index_kem(level));
    lemma_occurs(d, dsa_variant_name(level), find_index_dsa(level));
    lemma_occurs(d, kv_.skip(kv_.len() - 10), find_index_strength(level));
    lemma_occurs(d, dv_.skip(dv_.len() - 10), find_index_strength(level));
}

/// Where a level's Kyber variant name stands in its description.
spec fn find_index_kem(level: SecurityLevel) -> int {
    8
}

/// Where a level's Dilithium variant name stands in its description.
spec fn find_index_dsa(level: SecurityLevel) -> int {
    match level {
        SecurityLevel::Level5 => 18,
        _ => 17,
    }
}

/// Where a level's strength `(~AES-…)` stands in its description.
spec fn find_index_strength(level: SecurityLevel) -> int {
    match level {
        SecurityLevel::Level5 => 29,
        _ => 28,
    }
}

/// The algorithm that inspecting a bundle shows for a KEM or DSA bundle
/// begins with the algorithm name that the PEM header of a public key of
/// that kind gives (`ML-KEM` or `ML-DSA`), at every level.
pub proof fn lemma_bundle_algorithm_agrees_with_pem(level: SecurityLevel)
    ensures
        find(kem_header(level), bundle_algorithm_text("kem"@).take(6)) is Some,
        find(dsa_header(level), bundle_algorithm_text("dsa"@).take(6)) is Some,
        bundle_algorithm_text("kem"@).take(6) != bundle_algorithm_text("dsa"@).take(6),
{
    reveal_strlit("kem");
    reveal_strlit("dsa");
    reveal_strlit("ML-KEM (Kyber)");
    reveal_strlit("ML-DSA (Dilithium)");
    reveal_strlit("Algorithm: ML-KEM; Level: ");
    reveal_strlit("Algorithm: ML-DSA; Level: ");
    assert("kem"@[0] != "dsa"@[0]);
    let ka = bundle_algorithm_text("kem"@).take(6);
    let da = bundle_algorithm_text("dsa"@).take(6);
    assert(ka[3] != da[3]);
    assert(kem_header(level).subrange(11, 17) =~= ka);
    assert(dsa_header(level).subrange(11, 17) =~= da);
    lemma_occurs(kem_header(level), ka, 11);
    lemma_occurs(dsa_header(level), da, 11);
}

/// Inspecting shows `Unknown` for a kind other than KEM and DSA, and for a
/// level number other than 1, 3 and 5.
pub proof fn lemma_bundle_variant_unknown(kind: Seq<char>, level: u64)
    ensures
        (kind != "kem"@ && kind != "dsa"@) || (level != 1 && level != 3 && level != 5)
            ==> bundle_variant_text(kind, level) == "Unknown"@,
{
}

// ── Inspecting a bundle ───────────────────────────────────────────────────────

/// What `serde_json::from_str::<serde_json::Value>` makes of a bundle's
/// text: the error's text when the text is not JSON, else the `"kind"`
/// field read with `Value::as_str` and the `"level"` field read with
/// `Value::as_u64` (each `None` when missing or of another type).
pub uninterp spec fn bundle_json_fields(text: Seq<char>) -> core::result::Result<(Option<Seq<char>>, Option<u64>), Seq<char>>;

/// Parses `text` with `serde_json::from_str` into a `serde_json::Value`
/// and reads its `"kind"` (`as_str`) and `"level"` (`as_u64`) fields; a
/// parse error is handed back as its `to_string()` text.
#[verifier::external_body]
fn read_bundle_fields(text: &str) -> (r: Result<(Option<String>, Option<u64>), String>)
    ensures
        match r {
            Ok((k, l)) => bundle_json_fields(text@) == Ok::<(Option<Seq<char>>, Option<u64>), Seq<char>>((
                match k {
                    Some(s) => Some(s@),
                    None => None,
                },
                l,
            )),
            Err(m) => bundle_json_fields(text@) == Err::<(Option<Seq<char>>, Option<u64>), Seq<char>>(m@),
        },
{
    let json: serde_json::Value = serde_json::from_str(text).map_err(|e| e.to_string())?;
    Ok((json["kind"].as_str().map(String::from), json["level"].as_u64()))
}

/// What inspecting a bundle's text shows: the algorithm and variant that its
/// kind and level name, and the level number, with `"unknown"` for a
/// missing kind and 0 for a missing level; or the JSON error's text.
pub fn inspect_bundle(text: &str) -> (r: Result<(&'static str, &'static str, u64), String>)
    ensures
        match bundle_json_fields(text@) {
            Err(m) => r matches Err(e) && e@ == m,
            Ok((k, l)) => {
                let kind = match k {
                    Some(s) => s,
                    None => "unknown"@,
                };
                let level: u64 = match l {
                    Some(x) => x,
                    None => 0,
                };
                r matches Ok((a, v, n)) && n == level && a@ == bundle_algorithm_text(kind)
                    && v@ == bundle_variant_text(kind, level)
            },
        },
{
    match read_bundle_fields(text) {
        Err(m) => Err(m),
        Ok((k, l)) => {
            let level: u64 = match l {
                Some(x) => x,
                None => 0,
            };
            let kind: &str = match &k {
                Some(s) => s.as_str(),
                None => "unknown",
            };
            Ok((bundle_algorithm(kind), bundle_variant(kind, level), level))
        },
    }
}

} // verus!
