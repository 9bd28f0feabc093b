//! String primitives the rest of the crate is built on: case
//! normalization, whitespace trimming, and boolean/integer parsing.
//!
//! Case mapping and the whitespace character class are Unicode tables,
//! so their results are named (`upper_of`, `lower_of`, `is_space_char`)
//! rather than written out. Trimming is implemented and verified here
//! over that one named predicate, and the parsers' results are small
//! enough to state exactly.

use vstd::prelude::*;

verus! {

/// The Unicode uppercase mapping of a character sequence, as
/// `str::to_uppercase` computes it.
pub uninterp spec fn upper_of(s: Seq<char>) -> Seq<char>;

/// The Unicode lowercase mapping of a character sequence, as
/// `str::to_lowercase` computes it.
pub uninterp spec fn lower_of(s: Seq<char>) -> Seq<char>;

/// Whether a character counts as whitespace, as `char::is_whitespace`
/// decides it.
pub uninterp spec fn is_space_char(c: char) -> bool;

/// Relies on `char::is_whitespace`: whether the character has the
/// Unicode `White_Space` property, a function of the character alone.
#[verifier::external_body]
pub fn is_space(c: char) -> (r: bool)
    ensures
        r == is_space_char(c),
{
    c.is_whitespace()
}

/// The first position at or after `i` that holds a non-whitespace
/// character, or the length when none does.
pub open spec fn start_of_trim(s: Seq<char>, i: int) -> int
    decreases s.len() - i,
{
    if i < 0 || i >= s.len() {
        s.len() as int
    } else if !is_space_char(s[i]) {
        i
    } else {
        start_of_trim(s, i + 1)
    }
}

/// One past the last position below `i` that holds a non-whitespace
/// character, or zero when none does.
pub open spec fn end_of_trim(s: Seq<char>, i: int) -> int
    decreases i,
{
    if i <= 0 || i > s.len() {
        0
    } else if !is_space_char(s[i - 1]) {
        i
    } else {
        end_of_trim(s, i - 1)
    }
}

/// A character sequence with leading and trailing whitespace removed.
pub open spec fn trimmed_of(s: Seq<char>) -> Seq<char> {
    let a = start_of_trim(s, 0);
    let b = end_of_trim(s, s.len() as int);
    if a < b {
        s.subrange(a, b)
    } else {
        Seq::empty()
    }
}

/// Relies on `str::to_uppercase`: the Unicode uppercase equivalent of the
/// input, a function of the characters alone.
#[verifier::external_body]
pub fn to_upper(s: &str) -> (r: String)
    ensures
        r@ == upper_of(s@),
{
    s.to_uppercase()
}

/// Relies on `str::to_lowercase`: the Unicode lowercase equivalent of the
/// input, a function of the characters alone.
#[verifier::external_body]
pub fn to_lower(s: &str) -> (r: String)
    ensures
        r@ == lower_of(s@),
{
    s.to_lowercase()
}

/// The input without leading and trailing whitespace.
pub fn trim_ws(s: &str) -> (r: String)
    ensures
        r@ == trimmed_of(s@),
{
    let n = s.unicode_len();
    let mut a: usize = 0;
    loop
        invariant_except_break
            a <= n,
            n == s@.len(),
            start_of_trim(s@, 0) == start_of_trim(s@, a as int),
        ensures
            n == s@.len(),
            a as int == start_of_trim(s@, 0),
        decreases n - a,
    {
        if a >= n {
            break;
        }
        if !is_space(s.get_char(a)) {
            break;
        }
        a = a + 1;
    }
    let mut b: usize = n;
    loop
        invariant_except_break
            b <= n,
            n == s@.len(),
            end_of_trim(s@, n as int) == end_of_trim(s@, b as int),
        ensures
            b <= n,
            n == s@.len(),
            b as int == end_of_trim(s@, n as int),
        decreases b,
    {
        if b == 0 {
            break;
        }
        if !is_space(s.get_char(b - 1)) {
            break;
        }
        b = b - 1;
    }
    if a < b {
        String::from_str(s.substring_char(a, b))
    } else {
        String::new()
    }
}

/// Whether `c` is a decimal digit.
pub open spec fn is_dec_digit(c: char) -> bool {
    '0' <= c && c <= '9'
}

/// The numeric value of a decimal digit.
pub open spec fn dec_digit_value(c: char) -> int {
    c as int - '0' as int
}

/// Whether every character of `s` is a decimal digit.
pub open spec fn all_dec_digits(s: Seq<char>) -> bool {
    forall|i: int| 0 <= i < s.len() ==> is_dec_digit(#[trigger] s[i])
}

/// The integer denoted by a sequence of decimal digits, most significant
/// first.
pub open spec fn dec_digits_value(s: Seq<char>) -> int
    decreases s.len(),
{
    if s.len() == 0 {
        0
    } else {
        dec_digits_value(s.drop_last()) * 10 + dec_digit_value(s.last())
    }
}

/// The integer a string denotes under std's integer grammar — an optional
/// `+` or `-` sign followed by one or more decimal digits, nothing else —
/// or nothing when the string is not of that shape.
pub open spec fn dec_int_of(s: Seq<char>) -> Option<int> {
    if s.len() > 0 && (s[0] == '+' || s[0] == '-') {
        let digits = s.subrange(1, s.len() as int);
        if digits.len() > 0 && all_dec_digits(digits) {
            Some(if s[0] == '-' { -dec_digits_value(digits) } else { dec_digits_value(digits) })
        } else {
            None
        }
    } else if s.len() > 0 && all_dec_digits(s) {
        Some(dec_digits_value(s))
    } else {
        None
    }
}

/// What parsing a string as an `i64` yields: the denoted integer when the
/// string follows the grammar and the value fits, nothing otherwise.
pub open spec fn parsed_i64(s: Seq<char>) -> Option<i64> {
    match dec_int_of(s) {
        Some(n) => if i64::MIN <= n <= i64::MAX {
            Some(n as i64)
        } else {
            None
        },
        None => None,
    }
}

/// What parsing a string as a `bool` yields: exactly the two literal
/// words, case-sensitively.
pub open spec fn parsed_bool(s: Seq<char>) -> Option<bool> {
    if s == seq!['t', 'r', 'u', 'e'] {
        Some(true)
    } else if s == seq!['f', 'a', 'l', 's', 'e'] {
        Some(false)
    } else {
        None
    }
}

/// Relies on `str::parse::<i64>`: accepts an optional sign followed by
/// only decimal digits, and rejects values outside the `i64` range.
#[verifier::external_body]
pub fn parse_i64(s: &str) -> (r: Option<i64>)
    ensures
        r == parsed_i64(s@),
{
    s.parse::<i64>().ok()
}

/// Relies on `str::parse::<bool>`: accepts exactly `"true"` and
/// `"false"`.
#[verifier::external_body]
pub fn parse_bool(s: &str) -> (r: Option<bool>)
    ensures
        r == parsed_bool(s@),
{
    s.parse::<bool>().ok()
}

} // verus!
