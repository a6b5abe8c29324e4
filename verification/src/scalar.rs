//! Lexical constraints on the scalar values a UBL invoice carries.
//!
//! Every free-text value (party name, item description, identifier) must be
//! non-empty and drawn from the printable ASCII range, excluding the two
//! characters that would need escaping inside a JSON string literal.  A
//! currency code is exactly three ASCII capitals, as in ISO 4217.

use vstd::prelude::*;

verus! {

/// A character acceptable inside an identifier or free-text value: printable
/// ASCII, excluding `"` and `\` so that the value can stand verbatim inside
/// a JSON string literal.
pub open spec fn text_char(c: char) -> bool {
    0x20 <= c as u32 <= 0x7e && c != '"' && c != '\\'
}

/// A valid free-text or identifier value: non-empty, every character
/// acceptable.
pub open spec fn valid_text(s: Seq<char>) -> bool {
    s.len() > 0 && forall|i: int| 0 <= i < s.len() ==> text_char(#[trigger] s[i])
}

/// A valid currency code: exactly three ASCII capital letters.
pub open spec fn valid_currency(s: Seq<char>) -> bool {
    s.len() == 3 && forall|i: int| 0 <= i < s.len() ==> 'A' <= #[trigger] s[i] <= 'Z'
}

/// Decides `valid_text` for a string slice.
pub fn check_text(s: &str) -> (b: bool)
    ensures
        b == valid_text(s@),
{
    let n: usize = s.unicode_len();
    if n == 0 {
        return false;
    }
    let mut i: usize = 0;
    while i < n
        invariant
            n == s@.len(),
            0 <= i <= n,
            forall|j: int| 0 <= j < i ==> text_char(#[trigger] s@[j]),
        decreases n - i,
    {
        let c: char = s.get_char(i);
        let u: u32 = c as u32;
        if u < 0x20 || u > 0x7e || c == '"' || c == '\\' {
            return false;
        }
        i = i + 1;
    }
    true
}

/// Decides `valid_currency` for a string slice.
pub fn check_currency(s: &str) -> (b: bool)
    ensures
        b == valid_currency(s@),
{
    let n: usize = s.unicode_len();
    if n != 3 {
        return false;
    }
    let mut i: usize = 0;
    while i < n
        invariant
            n == s@.len(),
            n == 3,
            0 <= i <= n,
            forall|j: int| 0 <= j < i ==> 'A' <= #[trigger] s@[j] <= 'Z',
        decreases n - i,
    {
        let c: char = s.get_char(i);
        if c < 'A' || c > 'Z' {
            return false;
        }
        i = i + 1;
    }
    true
}

} // verus!
