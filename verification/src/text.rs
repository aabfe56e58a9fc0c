//! Text: comparison by content, and letter case.

use vstd::prelude::*;
use vstd::string::*;
use vstd::utf8::{encode_utf8, encode_utf8_decode_utf8};

verus! {

/// The number of bytes that `s` takes in UTF-8.
pub open spec fn byte_len(s: Seq<char>) -> nat {
    encode_utf8(s).len()
}

/// The text of an optional string.
pub open spec fn text_of(s: Option<String>) -> Option<Seq<char>> {
    match s {
        Some(t) => Some(t@),
        None => None,
    }
}

/// `c` is one of the 52 ASCII letters.
pub open spec fn is_ascii_letter(c: char) -> bool {
    (0x41 <= c as u32 <= 0x5a) || (0x61 <= c as u32 <= 0x7a)
}

/// `c` is one of the 26 ASCII capital letters.
pub open spec fn is_ascii_capital(c: char) -> bool {
    0x41 <= c as u32 <= 0x5a
}

/// Every character of `s` is an ASCII letter.
pub open spec fn only_ascii_letters(s: Seq<char>) -> bool {
    forall|i: int| 0 <= i < s.len() ==> is_ascii_letter(#[trigger] s[i])
}

/// Every character of `s` is an ASCII capital letter.
pub open spec fn only_ascii_capitals(s: Seq<char>) -> bool {
    forall|i: int| 0 <= i < s.len() ==> is_ascii_capital(#[trigger] s[i])
}

/// The text of `s` with each letter replaced by its uppercase form, as Unicode defines it.
pub uninterp spec fn uppercase_text(s: Seq<char>) -> Seq<char>;

/// The text of `s` with each letter replaced by its lowercase form, as Unicode defines it.
pub uninterp spec fn lowercase_text(s: Seq<char>) -> Seq<char>;

/// The uppercase form of `s`, from `str::to_uppercase`.
///
/// The result is whatever the standard library makes of this text.
#[verifier::external_body]
pub(crate) fn to_uppercase(s: &str) -> (r: String)
    ensures
        r@ == uppercase_text(s@),
{
    s.to_uppercase()
}

/// The lowercase form of `s`, from `str::to_lowercase`.
///
/// The result is whatever the standard library makes of this text.
#[verifier::external_body]
pub(crate) fn to_lowercase(s: &str) -> (r: String)
    ensures
        r@ == lowercase_text(s@),
{
    s.to_lowercase()
}

/// Whether two texts hold the same characters.
pub fn str_eq(a: &str, b: &str) -> (r: bool)
    ensures
        r == (a@ == b@),
{
    let x = a.as_bytes();
    let y = b.as_bytes();
    if x.len() != y.len() {
        return false;
    }
    let mut i: usize = 0;
    while i < x.len()
        invariant
            i <= x@.len(),
            x@.len() == y@.len(),
            x@ == encode_utf8(a@),
            y@ == encode_utf8(b@),
            forall|j: int| 0 <= j < i ==> x@[j] == y@[j],
        decreases x@.len() - i,
    {
        if x[i] != y[i] {
            proof {
                if a@ == b@ {
                    assert(x@ == encode_utf8(a@));
                    assert(y@ == encode_utf8(b@));
                    assert(x@[i as int] == y@[i as int]);
                }
            }
            return false;
        }
        i += 1;
    }
    proof {
        assert(x@ =~= y@);
        encode_utf8_decode_utf8(a@);
        encode_utf8_decode_utf8(b@);
    }
    true
}

/// Whether `c` is one of the 52 ASCII letters.
pub fn char_is_ascii_letter(c: char) -> (r: bool)
    ensures
        r == is_ascii_letter(c),
{
    let n: u32 = c as u32;
    (0x41 <= n && n <= 0x5a) || (0x61 <= n && n <= 0x7a)
}

/// Whether `c` is one of the 26 ASCII capital letters.
pub fn char_is_ascii_capital(c: char) -> (r: bool)
    ensures
        r == is_ascii_capital(c),
{
    let n: u32 = c as u32;
    0x41 <= n && n <= 0x5a
}

/// Whether every character of `s` is an ASCII letter.
pub fn all_ascii_letters(s: &str) -> (r: bool)
    ensures
        r == only_ascii_letters(s@),
{
    let n: usize = s.unicode_len();
    let mut i: usize = 0;
    while i < n
        invariant
            i <= n,
            n == s@.len(),
            forall|j: int| 0 <= j < i ==> is_ascii_letter(s@[j]),
        decreases n - i,
    {
        if !char_is_ascii_letter(s.get_char(i)) {
            return false;
        }
        i += 1;
    }
    true
}

/// Whether every character of `s` is an ASCII capital letter.
pub fn all_ascii_capitals(s: &str) -> (r: bool)
    ensures
        r == only_ascii_capitals(s@),
{
    let n: usize = s.unicode_len();
    let mut i: usize = 0;
    while i < n
        invariant
            i <= n,
            n == s@.len(),
            forall|j: int| 0 <= j < i ==> is_ascii_capital(s@[j]),
        decreases n - i,
    {
        if !char_is_ascii_capital(s.get_char(i)) {
            return false;
        }
        i += 1;
    }
    true
}

} // verus!
