//! Character classes and small text-building helpers shared by the
//! normalizer and by both inference backends.

use vstd::prelude::*;

verus! {

/// A whitespace character: the code points with the Unicode `White_Space`
/// property, the same class `char::is_whitespace` recognizes.
pub open spec fn is_space_char(c: char) -> bool {
    let u = c as u32;
    u == 0x9 || u == 0xA || u == 0xB || u == 0xC || u == 0xD || u == 0x20 || u == 0x85 || u == 0xA0
        || u == 0x1680 || (0x2000 <= u && u <= 0x200A) || u == 0x2028 || u == 0x2029 || u == 0x202F
        || u == 0x205F || u == 0x3000
}

/// An ASCII punctuation character, by the four ASCII punctuation ranges.
pub open spec fn is_punct_char(c: char) -> bool {
    let u = c as u32;
    (33 <= u && u <= 47) || (58 <= u && u <= 64) || (91 <= u && u <= 96) || (123 <= u && u
        <= 126)
}

/// A separator: a character the normalizer turns into a word boundary.
pub open spec fn is_sep_char(c: char) -> bool {
    is_space_char(c) || is_punct_char(c)
}

pub fn is_sep(c: char) -> (r: bool)
    ensures
        r == is_sep_char(c),
{
    let u = c as u32;
    u == 0x20 || (0x9 <= u && u <= 0xD) || u == 0x85 || u == 0xA0 || u == 0x1680 || (0x2000 <= u
        && u <= 0x200A) || u == 0x2028 || u == 0x2029 || u == 0x202F || u == 0x205F || u == 0x3000
        || (33 <= u && u <= 47) || (58 <= u && u <= 64) || (91 <= u && u <= 96) || (123 <= u && u
        <= 126)
}

/// The Unicode lower-casing of a text, as `str::to_lowercase` computes it: a
/// result that would take pages to state, but depends on the characters
/// alone.
pub uninterp spec fn lower_of(s: Seq<char>) -> Seq<char>;

/// Relies on `str::to_lowercase`: returns the lowercase equivalent of the
/// text as a new string; the result depends on the characters alone.
#[verifier::external_body]
pub(crate) fn lowercase(text: &str) -> (r: String)
    ensures
        r@ == lower_of(text@),
        text@.len() == 0 ==> r@.len() == 0,
{
    text.to_lowercase()
}

/// Relies on `String::push`: appends the given character to the end of the
/// string.
#[verifier::external_body]
pub fn push_char(s: &mut String, c: char)
    ensures
        final(s)@ == old(s)@ + seq![c],
{
    s.push(c)
}

/// The decimal digit character for one digit value.
pub open spec fn dec_digit(d: nat) -> char
    recommends
        d < 10,
{
    ((48 + d) as u8) as char
}

/// The decimal numeral of a number, most significant digit first, with no
/// leading zeros (zero itself is the single digit `0`).
pub open spec fn dec_seq(n: nat) -> Seq<char>
    decreases n,
{
    if n < 10 {
        seq![dec_digit(n)]
    } else {
        dec_seq(n / 10) + seq![dec_digit(n % 10)]
    }
}

/// Renders a number as its decimal numeral.
pub fn to_decimal(n: usize) -> (r: String)
    ensures
        r@ == dec_seq(n as nat),
    decreases n,
{
    if n < 10 {
        let mut s = String::new();
        push_char(&mut s, (48 + n as u8) as char);
        assert(s@ =~= dec_seq(n as nat));
        s
    } else {
        let mut s = to_decimal(n / 10);
        push_char(&mut s, (48 + (n % 10) as u8) as char);
        assert(s@ =~= dec_seq(n as nat));
        s
    }
}

} // verus!
