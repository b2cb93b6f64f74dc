//! Characters and decimal digits in text.

use vstd::prelude::*;
use vstd::std_specs::iter::IteratorSpec;
use vstd::string::*;

verus! {

/// Whether `c` is one of the digits `0` to `9`.
pub open spec fn is_digit(c: char) -> bool {
    '0' <= c <= '9'
}

/// The number that the digit `c` stands for.
pub open spec fn digit_value(c: char) -> int {
    c as int - '0' as int
}

/// Whether two digits stand at positions `i` and `i + 1` of `s`.
pub open spec fn has_two_digits_at(s: Seq<char>, i: int) -> bool {
    &&& 0 <= i
    &&& i + 2 <= s.len()
    &&& is_digit(s[i])
    &&& is_digit(s[i + 1])
}

/// The number written by the two digits at positions `i` and `i + 1` of `s`.
pub open spec fn two_digits_at(s: Seq<char>, i: int) -> int {
    10 * digit_value(s[i]) + digit_value(s[i + 1])
}

/// Whether four digits stand at positions `i` to `i + 3` of `s`.
pub open spec fn has_four_digits_at(s: Seq<char>, i: int) -> bool {
    has_two_digits_at(s, i) && has_two_digits_at(s, i + 2)
}

/// The number written by the four digits at positions `i` to `i + 3` of `s`.
pub open spec fn four_digits_at(s: Seq<char>, i: int) -> int {
    100 * two_digits_at(s, i) + two_digits_at(s, i + 2)
}

/// The characters of `text`, one by one.
pub fn chars_of(text: &str) -> (r: Vec<char>)
    ensures
        r@ == text@,
{
    let mut chars: Vec<char> = Vec::new();
    for c in it: text.chars()
        invariant
            chars@ == it.seq().take(it.index() as int),
    {
        chars.push(c);
    }
    chars
}

/// Reads the digit at position `i` of `chars`, if a digit stands there.
pub fn digit_at(chars: &[char], i: usize) -> (r: Option<u32>)
    requires
        i < chars@.len(),
    ensures
        r == (if is_digit(chars@[i as int]) {
            Some(digit_value(chars@[i as int]) as u32)
        } else {
            None
        }),
{
    let c = chars[i];
    if '0' <= c && c <= '9' {
        Some(c as u32 - '0' as u32)
    } else {
        None
    }
}

/// Reads the number written by two digits at position `i` of `chars`, from 0 to
/// 99, if two digits stand there.
pub fn read_two_digits(chars: &[char], i: usize) -> (r: Option<u32>)
    requires
        i + 2 <= chars@.len(),
    ensures
        r == (if has_two_digits_at(chars@, i as int) {
            Some(two_digits_at(chars@, i as int) as u32)
        } else {
            None
        }),
        r matches Some(n) ==> n <= 99,
{
    assert(i + 2 <= chars.len());
    match (digit_at(chars, i), digit_at(chars, i + 1)) {
        (Some(tens), Some(ones)) => Some(10 * tens + ones),
        _ => None,
    }
}

/// Reads the number written by four digits at position `i` of `chars`, from 0 to
/// 9999, if four digits stand there.
pub fn read_four_digits(chars: &[char], i: usize) -> (r: Option<u32>)
    requires
        i + 4 <= chars@.len(),
    ensures
        r == (if has_four_digits_at(chars@, i as int) {
            Some(four_digits_at(chars@, i as int) as u32)
        } else {
            None
        }),
        r matches Some(n) ==> n <= 9999,
{
    assert(i + 4 <= chars.len());
    match (read_two_digits(chars, i), read_two_digits(chars, i + 2)) {
        (Some(high), Some(low)) => Some(100 * high + low),
        _ => None,
    }
}

} // verus!
