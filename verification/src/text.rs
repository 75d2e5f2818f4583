//! Character-level text helpers: the Unicode whitespace set, trimming, prefixes and
//! decimal rendering, each specified over the text's sequence of chars.

use vstd::prelude::*;

verus! {

/// The chars that carry the Unicode `White_Space` property.
pub open spec fn is_white_space(c: char) -> bool {
    ||| ('\u{9}' <= c && c <= '\u{d}')
    ||| c == ' '
    ||| c == '\u{85}'
    ||| c == '\u{a0}'
    ||| c == '\u{1680}'
    ||| ('\u{2000}' <= c && c <= '\u{200a}')
    ||| c == '\u{2028}'
    ||| c == '\u{2029}'
    ||| c == '\u{202f}'
    ||| c == '\u{205f}'
    ||| c == '\u{3000}'
}

/// `s` with its leading white space removed.
pub open spec fn trim_start_spec(s: Seq<char>) -> Seq<char>
    decreases s.len(),
{
    if s.len() > 0 && is_white_space(s[0]) {
        trim_start_spec(s.drop_first())
    } else {
        s
    }
}

/// `s` with its trailing white space removed.
pub open spec fn trim_end_spec(s: Seq<char>) -> Seq<char>
    decreases s.len(),
{
    if s.len() > 0 && is_white_space(s.last()) {
        trim_end_spec(s.drop_last())
    } else {
        s
    }
}

/// `s` with white space removed at both ends.
pub open spec fn trim_spec(s: Seq<char>) -> Seq<char> {
    trim_end_spec(trim_start_spec(s))
}

/// `s` holds at least one char that is not white space.
pub open spec fn has_content(s: Seq<char>) -> bool {
    trim_spec(s).len() > 0
}

/// `str::trim`: the slice without leading and trailing chars of the Unicode
/// `White_Space` property, as the standard library documents it.
#[verifier::external_body]
pub fn trim(s: &str) -> (r: &str)
    ensures
        r@ == trim_spec(s@),
{
    s.trim()
}

/// Equality of two string slices (`<str as PartialEq>::eq`): equal exactly when
/// they hold the same chars.
#[verifier::external_body]
pub fn str_eq(a: &str, b: &str) -> (r: bool)
    ensures
        r == (a@ == b@),
{
    a == b
}

/// `str::strip_prefix` with a string-slice pattern: the rest of `s` after `prefix`
/// when `s` starts with it, `None` otherwise.
#[verifier::external_body]
pub fn strip_prefix<'a>(s: &'a str, prefix: &str) -> (r: Option<&'a str>)
    ensures
        match r {
            Some(rest) => s@ == prefix@ + rest@,
            None => !prefix@.is_prefix_of(s@),
        },
{
    s.strip_prefix(prefix)
}

/// Whether `s` has a char outside the white space set.
pub fn is_present(s: &str) -> (r: bool)
    ensures
        r == has_content(s@),
{
    let t = trim(s);
    !t.is_empty()
}

} // verus!
