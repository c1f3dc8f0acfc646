//! The license check: the key's normal form, its offline format, and the
//! verdict from the validation server's answer.

use vstd::prelude::*;
use crate::text::{chars_of, trim, trimmed};

verus! {

/// The upper-case form of `s`.
pub uninterp spec fn upper_of(s: Seq<char>) -> Seq<char>;

/// Relies on `str::to_uppercase`: the Unicode upper-case mapping, which
/// depends on the characters alone; an empty string stays empty.
#[verifier::external_body]
fn uppercase(s: &str) -> (r: String)
    ensures
        r@ == upper_of(s@),
        s@.len() == 0 ==> r@.len() == 0,
{
    s.to_uppercase()
}

/// An ASCII letter or digit.
pub open spec fn ascii_alnum(c: char) -> bool {
    ('a' <= c && c <= 'z') || ('A' <= c && c <= 'Z') || ('0' <= c && c <= '9')
}

/// The offline key format `SB-XXXX-XXXX-XXXX-XXXX`, each `X` an ASCII letter
/// or digit.
pub open spec fn key_format_ok(k: Seq<char>) -> bool {
    &&& k.len() == 22
    &&& k[0] == 'S'
    &&& k[1] == 'B'
    &&& k[2] == '-'
    &&& forall|i: int|
        3 <= i < 22 ==> if (i - 2) % 5 == 0 {
            #[trigger] k[i] == '-'
        } else {
            ascii_alnum(k[i])
        }
}

/// The key as it is checked: trimmed, then upper-cased.
pub fn normalize_key(raw: &str) -> (r: String)
    ensures
        r@ == upper_of(trimmed(raw@)),
        trimmed(raw@).len() == 0 ==> r@.len() == 0,
{
    let t = trim(raw);
    uppercase(t.as_str())
}

fn is_ascii_alnum(c: char) -> (r: bool)
    ensures
        r == ascii_alnum(c),
{
    ('a' <= c && c <= 'z') || ('A' <= c && c <= 'Z') || ('0' <= c && c <= '9')
}

/// Whether `key` has the offline format.
pub fn offline_key_valid(key: &str) -> (r: bool)
    ensures
        r == key_format_ok(key@),
{
    let v = chars_of(key);
    if v.len() != 22 || v[0] != 'S' || v[1] != 'B' || v[2] != '-' {
        return false;
    }
    let mut i: usize = 3;
    while i < 22
        invariant
            3 <= i <= 22,
            v@ == key@,
            v.len() == 22,
            forall|j: int|
                3 <= j < i ==> if (j - 2) % 5 == 0 {
                    #[trigger] v@[j] == '-'
                } else {
                    ascii_alnum(v@[j])
                },
        decreases 22 - i,
    {
        let ok = if (i - 2) % 5 == 0 {
            v[i] == '-'
        } else {
            is_ascii_alnum(v[i])
        };
        if !ok {
            return false;
        }
        i = i + 1;
    }
    true
}

/// What the check does first.
#[derive(Debug, Clone, Copy, PartialEq, Eq)]
pub enum LicenseStep {
    /// The verdict is known without asking.
    Decided { valid: bool },
    /// Ask the validation server.
    AskServer,
}

/// The first step for the normalized key `key`: an empty key is invalid;
/// any other goes to the server.
pub fn license_first_step(key: &str) -> (r: LicenseStep)
    ensures
        key@.len() == 0 ==> r == (LicenseStep::Decided { valid: false }),
        key@.len() > 0 ==> r == LicenseStep::AskServer,
{
    if key.unicode_len() == 0 {
        LicenseStep::Decided { valid: false }
    } else {
        LicenseStep::AskServer
    }
}

/// The verdict on a key from the server's answer: `None` when the server
/// could not be reached or its body was not JSON, else its `valid` field
/// when that is a boolean. A key the server answered for is valid only when
/// the answer says so; without an answer the offline format decides.
pub open spec fn license_verdict_of(key: Seq<char>, answer: Option<Option<bool>>) -> bool {
    match answer {
        Some(Some(v)) => v,
        Some(None) => false,
        None => key_format_ok(key),
    }
}

/// The verdict on the normalized key `key` from the server's answer.
pub fn license_verdict(key: &str, answer: Option<Option<bool>>) -> (r: bool)
    ensures
        r == license_verdict_of(key@, answer),
{
    match answer {
        Some(Some(v)) => v,
        Some(None) => false,
        None => offline_key_valid(key),
    }
}

} // verus!
