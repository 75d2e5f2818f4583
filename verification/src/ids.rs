//! Random identifiers in the hyphenated UUID form, and the text derived from them.

use vstd::prelude::*;

verus! {

/// A lowercase hexadecimal digit.
pub open spec fn is_lower_hex(c: char) -> bool {
    ('0' <= c && c <= '9') || ('a' <= c && c <= 'f')
}

/// The positions of the hyphens in a hyphenated UUID.
pub open spec fn is_uuid_hyphen_position(i: int) -> bool {
    i == 8 || i == 13 || i == 18 || i == 23
}

/// The hyphenated lowercase form of a UUID: 32 hexadecimal digits in groups of 8,
/// 4, 4, 4 and 12, joined by hyphens.
pub open spec fn is_hyphenated_uuid(s: Seq<char>) -> bool {
    &&& s.len() == 36
    &&& forall|i: int|
        0 <= i < 36 ==> if is_uuid_hyphen_position(i) {
            #[trigger] s[i] == '-'
        } else {
            is_lower_hex(s[i])
        }
}

/// The variant digit of an RFC 4122 UUID: `8`, `9`, `a` or `b`.
pub open spec fn is_rfc4122_variant_digit(c: char) -> bool {
    c == '8' || c == '9' || c == 'a' || c == 'b'
}

/// The hyphenated form of a version 4 UUID: the version digit (position 14) is `4`
/// and the variant digit (position 19) is one of `8`, `9`, `a`, `b`.
pub open spec fn is_v4_uuid(s: Seq<char>) -> bool {
    &&& is_hyphenated_uuid(s)
    &&& s[14] == '4'
    &&& is_rfc4122_variant_digit(s[19])
}

/// `Uuid::new_v4` written with `to_string`: a random version 4 UUID in its
/// hyphenated lowercase form (`Display` writes the `LowerHex` form, which is
/// hyphenated). `new_v4` masks the random bits so that the version nibble is 4
/// and the top bits of the variant nibble are `10`. Nothing is stated of which
/// other digits come out.
#[verifier::external_body]
pub fn new_uuid_text() -> (r: String)
    ensures
        is_v4_uuid(r@),
{
    uuid::Uuid::new_v4().to_string()
}

/// `s` without its hyphens.
pub open spec fn without_hyphens(s: Seq<char>) -> Seq<char>
    decreases s.len(),
{
    if s.len() == 0 {
        Seq::empty()
    } else if s.last() == '-' {
        without_hyphens(s.drop_last())
    } else {
        without_hyphens(s.drop_last()).push(s.last())
    }
}

/// The number of hyphens of a hyphenated UUID before position `i`.
pub open spec fn uuid_hyphens_before(i: int) -> int {
    (if i > 8 { 1int } else { 0 }) + (if i > 13 { 1int } else { 0 }) + (if i > 18 { 1int } else { 0 }) + (
    if i > 23 { 1int } else { 0 })
}

/// `text` with every hyphen removed (`str::replace` of `'-'` by nothing).
pub fn remove_hyphens(text: &str) -> (r: String)
    ensures
        r@ == without_hyphens(text@),
        is_hyphenated_uuid(text@) ==> r@.len() == 32,
        is_hyphenated_uuid(text@) ==> forall|i: int| 0 <= i < r@.len() ==> is_lower_hex(#[trigger] r@[i]),
        is_hyphenated_uuid(text@) ==> forall|i: int|
            0 <= i < 36 && !is_uuid_hyphen_position(i) ==> r@[i - uuid_hyphens_before(i)] == #[trigger] text@[i],
{
    let n = text.unicode_len();
    let mut out = String::new();
    let mut i: usize = 0;
    while i < n
        invariant
            n == text@.len(),
            0 <= i <= n,
            out@ == without_hyphens(text@.subrange(0, i as int)),
            is_hyphenated_uuid(text@) ==> out@.len() == i - uuid_hyphens_before(i as int),
            is_hyphenated_uuid(text@) ==> forall|j: int| 0 <= j < out@.len() ==> is_lower_hex(#[trigger] out@[j]),
            is_hyphenated_uuid(text@) ==> forall|j: int|
                0 <= j < i && !is_uuid_hyphen_position(j) ==> out@[j - uuid_hyphens_before(j)] == #[trigger] text@[j],
        decreases n - i,
    {
        let c = text.get_char(i);
        let ghost prefix = text@.subrange(0, i as int);
        let ghost next = text@.subrange(0, i + 1);
        assert(next.drop_last() =~= prefix);
        assert(next.last() == c);
        if c != '-' {
            let piece = text.substring_char(i, i + 1);
            assert(piece@ =~= seq![c]);
            out.append(piece);
            assert(out@ =~= without_hyphens(prefix).push(c));
            proof {
                if is_hyphenated_uuid(text@) {
                    assert(!is_uuid_hyphen_position(i as int));
                    assert(is_lower_hex(text@[i as int]));
                }
            }
        } else {
            proof {
                if is_hyphenated_uuid(text@) {
                    if !is_uuid_hyphen_position(i as int) {
                        assert(is_lower_hex(text@[i as int]));
                    }
                }
            }
        }
        i = i + 1;
    }
    assert(text@.subrange(0, n as int) =~= text@);
    out
}

} // verus!
