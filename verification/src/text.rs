//! Character-level helpers on lines of text.

use vstd::prelude::*;
use vstd::string::StringExecFns;

verus! {

/// Whether `c` has the Unicode property White_Space.
pub open spec fn is_white_space(c: char) -> bool {
    let code = c as u32;
    ||| 0x09 <= code <= 0x0D
    ||| code == 0x20
    ||| code == 0x85
    ||| code == 0xA0
    ||| code == 0x1680
    ||| 0x2000 <= code <= 0x200A
    ||| code == 0x2028
    ||| code == 0x2029
    ||| code == 0x202F
    ||| code == 0x205F
    ||| code == 0x3000
}

/// A line is blank when nothing but white space is in it.
pub open spec fn spec_is_blank(line: Seq<char>) -> bool {
    forall|i: int| 0 <= i < line.len() ==> is_white_space(#[trigger] line[i])
}

fn white_space(c: char) -> (white: bool)
    ensures
        white == is_white_space(c),
{
    let code: u32 = c as u32;
    (0x09 <= code && code <= 0x0D) || code == 0x20 || code == 0x85 || code == 0xA0 || code
        == 0x1680 || (0x2000 <= code && code <= 0x200A) || code == 0x2028 || code == 0x2029
        || code == 0x202F || code == 0x205F || code == 0x3000
}

/// Whether `line` is empty once leading and trailing white space is removed.
pub fn is_blank(line: &str) -> (blank: bool)
    ensures
        blank == spec_is_blank(line@),
{
    let mut blank = true;
    for c in it: line.chars()
        invariant
            it.seq() == line@,
            blank == (forall|i: int| 0 <= i < it.index() ==> is_white_space(#[trigger] line@[i])),
    {
        if !white_space(c) {
            blank = false;
        }
    }
    blank
}

/// The value of a decimal digit, for the characters `0` to `9`.
pub open spec fn digit_value(c: char) -> int {
    c as u32 - 0x30
}

/// Whether `c` is one of the characters `0` to `9`.
pub open spec fn is_digit(c: char) -> bool {
    0x30 <= c as u32 <= 0x39
}

/// Whether a text holds nothing but decimal digits.
pub open spec fn all_digits(text: Seq<char>) -> bool {
    forall|i: int| 0 <= i < text.len() ==> is_digit(#[trigger] text[i])
}

/// The number that a run of decimal digits writes, most significant first.
pub open spec fn decimal_value(digits: Seq<char>) -> int
    decreases digits.len(),
{
    if digits.len() == 0 {
        0
    } else {
        decimal_value(digits.drop_last()) * 10 + digit_value(digits.last())
    }
}

/// What is left of `text` once one leading `+` is taken off.
pub open spec fn unsigned_digits(text: Seq<char>) -> Seq<char> {
    if text.len() > 0 && text[0] == '+' {
        text.skip(1)
    } else {
        text
    }
}

/// The unsigned 64-bit number that `text` writes in decimal: an optional
/// `+`, then at least one digit and nothing else. `None` where the text has
/// another shape or the number does not fit.
pub open spec fn spec_parse_u64(text: Seq<char>) -> Option<u64> {
    let digits = unsigned_digits(text);
    if digits.len() > 0 && all_digits(digits) && decimal_value(digits) <= u64::MAX {
        Some(decimal_value(digits) as u64)
    } else {
        None
    }
}

proof fn lemma_decimal_value_prefix(digits: Seq<char>, n: int)
    requires
        all_digits(digits),
        0 <= n <= digits.len(),
    ensures
        0 <= decimal_value(digits.take(n)) <= decimal_value(digits),
    decreases digits.len() - n,
{
    if n == digits.len() {
        assert(digits.take(n) == digits);
        lemma_decimal_value_nonnegative(digits);
    } else {
        lemma_decimal_value_prefix(digits, n + 1);
        let longer = digits.take(n + 1);
        assert(longer.drop_last() == digits.take(n));
        assert(is_digit(digits[n]));
        assert(longer.last() == digits[n]);
        lemma_decimal_value_nonnegative(digits.take(n));
    }
}

proof fn lemma_decimal_value_nonnegative(digits: Seq<char>)
    requires
        all_digits(digits),
    ensures
        0 <= decimal_value(digits),
    decreases digits.len(),
{
    if digits.len() > 0 {
        assert(is_digit(digits.last()));
        lemma_decimal_value_nonnegative(digits.drop_last());
    }
}

/// Read `text` as an unsigned 64-bit decimal number.
pub fn parse_u64(text: &str) -> (parsed: Option<u64>)
    ensures
        parsed == spec_parse_u64(text@),
{
    let mut value: u64 = 0;
    let mut first = true;
    let mut any_digit = false;
    let mut valid = true;
    let ghost digits = unsigned_digits(text@);
    let ghost mut seen: int = 0;
    for c in it: text.chars()
        invariant
            it.seq() == text@,
            digits == unsigned_digits(text@),
            first == (it.index() == 0),
            0 <= seen <= digits.len(),
            seen == it.index() - (text@.len() - digits.len()) || (seen == 0 && it.index() == 0),
            any_digit == (seen > 0),
            valid ==> all_digits(digits.take(seen)),
            valid ==> value == decimal_value(digits.take(seen)),
            !valid ==> spec_parse_u64(text@) is None,
    {
        let code: u32 = c as u32;
        if first && c == '+' {
            first = false;
        } else {
            first = false;
            proof {
                assert(digits[seen] == c);
                assert(digits.take(seen + 1).drop_last() == digits.take(seen));
                assert(digits.take(seen + 1).last() == c);
            }
            if valid {
                if 0x30 <= code && code <= 0x39 {
                    let digit: u64 = (code - 0x30) as u64;
                    let next = match value.checked_mul(10) {
                        Some(tens) => tens.checked_add(digit),
                        None => None,
                    };
                    match next {
                        Some(next) => {
                            value = next;
                        },
                        None => {
                            valid = false;
                            proof {
                                if all_digits(digits) {
                                    lemma_decimal_value_prefix(digits, seen + 1);
                                }
                            }
                        },
                    }
                } else {
                    valid = false;
                    assert(!is_digit(digits[seen]));
                }
            }
            any_digit = true;
            proof {
                seen = seen + 1;
            }
        }
    }
    assert(digits.take(seen) == digits);
    if valid && any_digit {
        Some(value)
    } else {
        None
    }
}

/// Calls `String::push`, which appends one character.
#[verifier::external_body]
pub(crate) fn push_char(text: &mut String, c: char)
    ensures
        final(text)@ == old(text)@.push(c),
{
    text.push(c)
}

/// The character that writes a digit.
pub open spec fn digit_char(digit: nat) -> char {
    if digit == 0 {
        '0'
    } else if digit == 1 {
        '1'
    } else if digit == 2 {
        '2'
    } else if digit == 3 {
        '3'
    } else if digit == 4 {
        '4'
    } else if digit == 5 {
        '5'
    } else if digit == 6 {
        '6'
    } else if digit == 7 {
        '7'
    } else if digit == 8 {
        '8'
    } else {
        '9'
    }
}

/// A number in decimal, without leading zeros.
pub open spec fn spec_decimal(number: nat) -> Seq<char>
    decreases number,
{
    if number < 10 {
        seq![digit_char(number)]
    } else {
        spec_decimal(number / 10).push(digit_char(number % 10))
    }
}

/// Write a number in decimal.
pub fn decimal(number: u64) -> (text: String)
    ensures
        text@ == spec_decimal(number as nat),
    decreases number,
{
    let digit = match number % 10 {
        0 => '0',
        1 => '1',
        2 => '2',
        3 => '3',
        4 => '4',
        5 => '5',
        6 => '6',
        7 => '7',
        8 => '8',
        _ => '9',
    };
    let mut text = if number < 10 {
        String::new()
    } else {
        decimal(number / 10)
    };
    push_char(&mut text, digit);
    assert(number < 10 ==> text@ =~= seq![digit_char(number as nat)]);
    text
}

} // verus!
