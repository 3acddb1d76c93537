//! Small text utilities shared by the notation layer: whitespace,
//! trimming, decimal numerals, and parsing unsigned integers.

use vstd::prelude::*;
use vstd::string::StrSliceExecFns;

verus! {

/// The Unicode `White_Space` characters: what `str::trim` removes and
/// what `str::split_whitespace` splits on.
pub open spec fn is_ws_char(c: char) -> bool {
    c == ' ' || c == '\t' || c == '\n' || c == '\r' || c == '\u{b}' || c == '\u{c}'
        || c == '\u{85}' || c == '\u{a0}' || c == '\u{1680}' || c == '\u{2000}'
        || c == '\u{2001}' || c == '\u{2002}' || c == '\u{2003}' || c == '\u{2004}'
        || c == '\u{2005}' || c == '\u{2006}' || c == '\u{2007}' || c == '\u{2008}'
        || c == '\u{2009}' || c == '\u{200a}' || c == '\u{2028}' || c == '\u{2029}'
        || c == '\u{202f}' || c == '\u{205f}' || c == '\u{3000}'
}

pub fn is_ws(c: char) -> (b: bool)
    ensures
        b == is_ws_char(c),
{
    c == ' ' || c == '\t' || c == '\n' || c == '\r' || c == '\u{b}' || c == '\u{c}'
        || c == '\u{85}' || c == '\u{a0}' || c == '\u{1680}' || c == '\u{2000}'
        || c == '\u{2001}' || c == '\u{2002}' || c == '\u{2003}' || c == '\u{2004}'
        || c == '\u{2005}' || c == '\u{2006}' || c == '\u{2007}' || c == '\u{2008}'
        || c == '\u{2009}' || c == '\u{200a}' || c == '\u{2028}' || c == '\u{2029}'
        || c == '\u{202f}' || c == '\u{205f}' || c == '\u{3000}'
}

/// The first index at or after `i` holding a non-whitespace character,
/// or the length if there is none.
pub open spec fn leading_ws_end(s: Seq<char>, i: int) -> int
    decreases s.len() - i,
{
    if i < 0 || i >= s.len() {
        s.len() as int
    } else if is_ws_char(s[i]) {
        leading_ws_end(s, i + 1)
    } else {
        i
    }
}

/// One past the last index below `j` holding a non-whitespace character,
/// or 0 if there is none.
pub open spec fn trailing_ws_start(s: Seq<char>, j: int) -> int
    decreases j,
{
    if j <= 0 || j > s.len() {
        0
    } else if is_ws_char(s[j - 1]) {
        trailing_ws_start(s, j - 1)
    } else {
        j
    }
}

/// `leading_ws_end` never leaves the searched range.
pub proof fn lemma_leading_ws_end_bounds(s: Seq<char>, i: int)
    requires
        0 <= i <= s.len(),
    ensures
        i <= leading_ws_end(s, i) <= s.len(),
    decreases s.len() - i,
{
    if i < s.len() && is_ws_char(s[i]) {
        lemma_leading_ws_end_bounds(s, i + 1);
    }
}

/// `leading_ws_end` stops only at a non-whitespace character.
pub proof fn lemma_leading_ws_end_stops(s: Seq<char>, i: int)
    requires
        0 <= i <= s.len(),
    ensures
        leading_ws_end(s, i) < s.len() ==> !is_ws_char(s[leading_ws_end(s, i)]),
    decreases s.len() - i,
{
    if i < s.len() && is_ws_char(s[i]) {
        lemma_leading_ws_end_stops(s, i + 1);
    }
}

/// The first index at or after `i` holding a whitespace character, or
/// the length if there is none.
pub open spec fn find_ws(s: Seq<char>, i: int) -> int
    decreases s.len() - i,
{
    if i < 0 || i >= s.len() {
        s.len() as int
    } else if is_ws_char(s[i]) {
        i
    } else {
        find_ws(s, i + 1)
    }
}

/// `find_ws` never leaves the searched range.
pub proof fn lemma_find_ws_bounds(s: Seq<char>, i: int)
    requires
        0 <= i <= s.len(),
    ensures
        i <= find_ws(s, i) <= s.len(),
    decreases s.len() - i,
{
    if i < s.len() && !is_ws_char(s[i]) {
        lemma_find_ws_bounds(s, i + 1);
    }
}

/// The sequence with leading and trailing whitespace removed.
pub open spec fn trim_spec(s: Seq<char>) -> Seq<char> {
    let a = leading_ws_end(s, 0);
    let b = trailing_ws_start(s, s.len() as int);
    if a < b {
        s.subrange(a, b)
    } else {
        Seq::empty()
    }
}

/// Trims whitespace from both ends of an ASCII string.
pub fn trim_ascii(s: &str) -> (r: &str)
    requires
        s.is_ascii(),
    ensures
        r@ == trim_spec(s@),
        r.is_ascii(),
{
    let len = s.unicode_len();
    let mut a: usize = 0;
    while a < len && is_ws(s.get_char(a))
        invariant
            0 <= a <= len,
            len == s@.len(),
            s.is_ascii(),
            leading_ws_end(s@, 0) == leading_ws_end(s@, a as int),
        decreases len - a,
    {
        a += 1;
    }
    assert(leading_ws_end(s@, 0) == a as int);
    let mut b: usize = len;
    while b > 0 && is_ws(s.get_char(b - 1))
        invariant
            0 <= b <= len,
            len == s@.len(),
            s.is_ascii(),
            trailing_ws_start(s@, len as int) == trailing_ws_start(s@, b as int),
        decreases b,
    {
        b -= 1;
    }
    assert(trailing_ws_start(s@, len as int) == b as int);
    if a < b {
        s.substring_ascii(a, b)
    } else {
        let r = s.substring_ascii(0, 0);
        assert(r@ =~= trim_spec(s@));
        r
    }
}

/// Appends one character to a string.
///
/// Relies on `String::push`, which appends the given character to the
/// end of the string.
#[verifier::external_body]
pub fn push_char(s: &mut String, c: char)
    ensures
        final(s)@ == old(s)@.push(c),
{
    s.push(c);
}

/// The numeric value of a decimal digit character, or -1 for any other
/// character.
pub open spec fn digit_val(c: char) -> int {
    match c {
        '0' => 0,
        '1' => 1,
        '2' => 2,
        '3' => 3,
        '4' => 4,
        '5' => 5,
        '6' => 6,
        '7' => 7,
        '8' => 8,
        '9' => 9,
        _ => -1,
    }
}

pub open spec fn is_digit_char(c: char) -> bool {
    digit_val(c) >= 0
}

/// The decimal digit character for a value below ten.
pub open spec fn digit_char(d: int) -> char {
    if d == 0 {
        '0'
    } else if d == 1 {
        '1'
    } else if d == 2 {
        '2'
    } else if d == 3 {
        '3'
    } else if d == 4 {
        '4'
    } else if d == 5 {
        '5'
    } else if d == 6 {
        '6'
    } else if d == 7 {
        '7'
    } else if d == 8 {
        '8'
    } else {
        '9'
    }
}

pub fn digit_to_char(d: u64) -> (c: char)
    requires
        d < 10,
    ensures
        c == digit_char(d as int),
{
    if d == 0 {
        '0'
    } else if d == 1 {
        '1'
    } else if d == 2 {
        '2'
    } else if d == 3 {
        '3'
    } else if d == 4 {
        '4'
    } else if d == 5 {
        '5'
    } else if d == 6 {
        '6'
    } else if d == 7 {
        '7'
    } else if d == 8 {
        '8'
    } else {
        '9'
    }
}

/// The first index at or after `i` holding the character `c`, or the
/// length if there is none.
pub open spec fn find_char(s: Seq<char>, i: int, c: char) -> int
    decreases s.len() - i,
{
    if i < 0 || i >= s.len() {
        s.len() as int
    } else if s[i] == c {
        i
    } else {
        find_char(s, i + 1, c)
    }
}

/// `find_char` never leaves the searched range.
pub proof fn lemma_find_char_bounds(s: Seq<char>, i: int, c: char)
    requires
        0 <= i <= s.len(),
    ensures
        i <= find_char(s, i, c) <= s.len(),
    decreases s.len() - i,
{
    if i < s.len() && s[i] != c {
        lemma_find_char_bounds(s, i + 1, c);
    }
}

/// Every character of the sequence is a decimal digit.
pub open spec fn all_digits(s: Seq<char>) -> bool {
    forall|i: int| 0 <= i < s.len() ==> is_digit_char(#[trigger] s[i])
}

/// The value of a sequence of decimal digit characters, most significant
/// first.
pub open spec fn dec_value(s: Seq<char>) -> int
    decreases s.len(),
{
    if s.len() == 0 {
        0
    } else {
        dec_value(s.drop_last()) * 10 + digit_val(s.last())
    }
}

/// The canonical decimal numeral of a non-negative value: no sign, no
/// leading zero except for the numeral of zero itself.
pub open spec fn dec_digits(n: int) -> Seq<char>
    decreases n,
{
    if n < 10 {
        seq![digit_char(n)]
    } else {
        dec_digits(n / 10).push(digit_char(n % 10))
    }
}

/// The decimal numeral of an unsigned value.
pub fn u64_to_string(n: u64) -> (s: String)
    ensures
        s@ == dec_digits(n as int),
    decreases n,
{
    if n < 10 {
        let mut s = String::new();
        push_char(&mut s, digit_to_char(n));
        assert(s@ =~= dec_digits(n as int));
        s
    } else {
        let mut s = u64_to_string(n / 10);
        push_char(&mut s, digit_to_char(n % 10));
        s
    }
}

/// The value of a digit sequence is never negative.
pub proof fn lemma_dec_value_nonneg(s: Seq<char>)
    requires
        all_digits(s),
    ensures
        dec_value(s) >= 0,
    decreases s.len(),
{
    if s.len() > 0 {
        assert(all_digits(s.drop_last()));
        lemma_dec_value_nonneg(s.drop_last());
    }
}

/// Extending a digit sequence never decreases its value.
pub proof fn lemma_dec_value_prefix(s: Seq<char>, i: int)
    requires
        all_digits(s),
        0 <= i <= s.len(),
    ensures
        dec_value(s) >= dec_value(s.subrange(0, i)),
    decreases s.len() - i,
{
    if i == s.len() {
        assert(s.subrange(0, i) =~= s);
    } else {
        lemma_dec_value_prefix(s, i + 1);
        let t = s.subrange(0, i + 1);
        assert(t.drop_last() =~= s.subrange(0, i));
        assert(all_digits(s.subrange(0, i)));
        lemma_dec_value_nonneg(s.subrange(0, i));
        assert(dec_value(t) == dec_value(s.subrange(0, i)) * 10 + digit_val(s[i]));
    }
}

/// How `str::parse::<u32>` reads a string: an optional leading plus
/// sign, then one or more decimal digits whose value fits in the type;
/// anything else is rejected.
pub open spec fn parse_u32_spec(s: Seq<char>) -> Option<u32> {
    let body = if s.len() > 0 && s[0] == '+' {
        s.subrange(1, s.len() as int)
    } else {
        s
    };
    if body.len() > 0 && all_digits(body) && dec_value(body) <= u32::MAX {
        Some(dec_value(body) as u32)
    } else {
        None
    }
}

/// Parses the characters of `s` between `from` and `to` as an unsigned
/// decimal number.
pub fn parse_u32_range(s: &str, from: usize, to: usize) -> (r: Option<u32>)
    requires
        from <= to <= s@.len(),
    ensures
        r == parse_u32_spec(s@.subrange(from as int, to as int)),
{
    let ghost whole = s@.subrange(from as int, to as int);
    let mut i = from;
    if i < to && s.get_char(i) == '+' {
        i += 1;
    }
    let ghost body = whole.subrange(i - from, whole.len() as int);
    assert(body =~= s@.subrange(i as int, to as int));
    assert(whole.subrange(0, whole.len() as int) =~= whole);
    assert(parse_u32_spec(whole) == (if body.len() > 0 && all_digits(body) && dec_value(body)
        <= u32::MAX {
        Some(dec_value(body) as u32)
    } else {
        None::<u32>
    }));
    if i == to {
        return None;
    }
    let mut acc: u64 = 0;
    let mut j = i;
    while j < to
        invariant
            i <= j <= to <= s@.len(),
            body == s@.subrange(i as int, to as int),
            body.len() == to - i,
            whole == s@.subrange(from as int, to as int),
            parse_u32_spec(whole) == (if body.len() > 0 && all_digits(body) && dec_value(body)
                <= u32::MAX {
                Some(dec_value(body) as u32)
            } else {
                None::<u32>
            }),
            acc <= u32::MAX,
            all_digits(body.subrange(0, j - i)),
            acc == dec_value(body.subrange(0, j - i)),
        decreases to - j,
    {
        let c = s.get_char(j);
        assert(c == body[j - i]);
        let d = match c {
            '0' => 0u64,
            '1' => 1u64,
            '2' => 2u64,
            '3' => 3u64,
            '4' => 4u64,
            '5' => 5u64,
            '6' => 6u64,
            '7' => 7u64,
            '8' => 8u64,
            '9' => 9u64,
            _ => {
                assert(!is_digit_char(body[j - i]));
                return None;
            },
        };
        assert(d == digit_val(c));
        let ghost pre = body.subrange(0, j - i);
        let ghost pre1 = body.subrange(0, j + 1 - i);
        assert(pre1.drop_last() =~= pre);
        acc = acc * 10 + d;
        assert(acc == dec_value(pre1));
        if acc > u32::MAX as u64 {
            proof {
                if all_digits(body) {
                    lemma_dec_value_prefix(body, j + 1 - i);
                }
            }
            return None;
        }
        j += 1;
    }
    assert(body.subrange(0, to - i) =~= body);
    Some(acc as u32)
}

/// Parses a whole string as an unsigned decimal number.
pub fn parse_u32_str(s: &str) -> (r: Option<u32>)
    ensures
        r == parse_u32_spec(s@),
{
    let len = s.unicode_len();
    let r = parse_u32_range(s, 0, len);
    assert(s@.subrange(0, s@.len() as int) =~= s@);
    r
}

} // verus!
