//! Module names and build identifiers.
//!
//! A module name is used as a directory name, as a file stem and as the
//! library identifier inside the generated manifest, so it is held to the
//! shape of a plain ASCII identifier. A build identifier only ever becomes
//! part of a directory name and may also start with a digit.

use vstd::prelude::*;
use vstd::string::*;

verus! {

/// An ASCII letter or an underscore: what an identifier may start with.
pub open spec fn ident_start(c: char) -> bool {
    ('a' <= c <= 'z') || ('A' <= c <= 'Z') || c == '_'
}

/// An ASCII letter, an ASCII digit or an underscore.
pub open spec fn ident_char(c: char) -> bool {
    ident_start(c) || ('0' <= c <= '9')
}

/// A non-empty run of identifier characters. Such a text holds no path
/// separator and no dot, so it names exactly one directory entry.
pub open spec fn valid_segment(s: Seq<char>) -> bool {
    s.len() > 0 && forall|i: int| 0 <= i < s.len() ==> ident_char(#[trigger] s[i])
}

/// A segment that also starts like an identifier.
pub open spec fn valid_name(s: Seq<char>) -> bool {
    valid_segment(s) && ident_start(s[0])
}

/// Whether the byte is an ASCII digit.
fn is_digit_byte(b: u8) -> (ok: bool)
    ensures
        ok == ('0' <= b as char <= '9'),
{
    '0' as u8 <= b && b <= '9' as u8
}

/// Whether the byte is an ASCII letter, an ASCII digit or an underscore.
fn is_ident_byte(b: u8) -> (ok: bool)
    ensures
        ok == ident_char(b as char),
{
    ('a' as u8 <= b && b <= 'z' as u8) || ('A' as u8 <= b && b <= 'Z' as u8) || b == '_' as u8
        || is_digit_byte(b)
}

/// Decides [`valid_segment`].
pub fn is_valid_segment(text: &str) -> (ok: bool)
    ensures
        ok == valid_segment(text@),
{
    if !text.is_ascii() {
        assert(!valid_segment(text@)) by {
            let i = choose|i: int| 0 <= i < text@.len() && !('\0' <= #[trigger] text@[i] <= '\u{7f}');
            assert(!ident_char(text@[i]));
        }
        return false;
    }
    let n: usize = text.unicode_len();
    if n == 0 {
        return false;
    }
    let mut i: usize = 0;
    while i < n
        invariant
            text.is_ascii(),
            n == text@.len(),
            i <= n,
            forall|j: int| 0 <= j < i ==> ident_char(#[trigger] text@[j]),
        decreases n - i,
    {
        let b: u8 = text.get_ascii(i);
        let ok = is_ident_byte(b);
        assert(ok == ident_char(text@[i as int]));
        if !ok {
            return false;
        }
        i += 1;
    }
    true
}

/// Decides [`valid_name`].
pub fn is_valid_name(text: &str) -> (ok: bool)
    ensures
        ok == valid_name(text@),
{
    if !is_valid_segment(text) {
        return false;
    }
    let b: u8 = text.get_ascii(0);
    !is_digit_byte(b)
}

} // verus!
