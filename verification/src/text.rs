//! Decimal numbers as text, and padding of text to a column width.

use vstd::prelude::*;

verus! {

/// Whether `c` is one of the digits `0` to `9`.
pub open spec fn is_digit(c: char) -> bool {
    '0' <= c <= '9'
}

/// The number that a digit stands for.
pub open spec fn digit_value(c: char) -> nat {
    (c as u32 - '0' as u32) as nat
}

/// Whether every character of `s` is a digit.
pub open spec fn all_digits(s: Seq<char>) -> bool {
    forall|i: int| 0 <= i < s.len() ==> is_digit(#[trigger] s[i])
}

/// The number written by a run of digits, most significant digit first.
pub open spec fn digits_value(s: Seq<char>) -> nat
    decreases s.len(),
{
    if s.len() == 0 {
        0
    } else {
        digits_value(s.drop_last()) * 10 + digit_value(s.last())
    }
}

/// Whether `s` starts with a sign.
pub open spec fn has_sign(s: Seq<char>) -> bool {
    s.len() > 0 && (s[0] == '-' || s[0] == '+')
}

/// The integer that `s` writes in decimal: an optional sign followed by
/// one digit or more, and nothing else. Any other text writes no integer.
pub open spec fn integer_value(s: Seq<char>) -> Option<int> {
    let digits = if has_sign(s) { s.drop_first() } else { s };
    if digits.len() == 0 || !all_digits(digits) {
        None
    } else if has_sign(s) && s[0] == '-' {
        Some(-(digits_value(digits) as int))
    } else {
        Some(digits_value(digits) as int)
    }
}

/// The integer that `s` writes, if it fits into 64 bits with sign.
pub open spec fn i64_value(s: Seq<char>) -> Option<i64> {
    match integer_value(s) {
        Some(v) => if i64::MIN <= v <= i64::MAX { Some(v as i64) } else { None },
        None => None,
    }
}

/// Reads a decimal integer of 64 bits: an optional `+` or `-`, then digits
/// only. Empty text, a sign alone, any other character and a number out of
/// range all give `None`.
pub fn parse_i64(s: &str) -> (value: Option<i64>)
    ensures
        value == i64_value(s@),
{
    let len: usize = s.unicode_len();
    if len == 0 {
        return None;
    }
    let first: char = s.get_char(0);
    let signed: bool = first == '-' || first == '+';
    let negative: bool = first == '-';
    let begin: usize = if signed { 1 } else { 0 };
    if begin == len {
        return None;
    }
    let ghost digits: Seq<char> = if signed { s@.drop_first() } else { s@ };
    let limit: u64 = 9_223_372_036_854_775_808u64;
    let mut magnitude: u64 = 0;
    let mut overflow: bool = false;
    let mut i: usize = begin;
    while i < len
        invariant
            begin <= i <= len,
            len == s@.len(),
            digits.len() == len - begin,
            digits == if has_sign(s@) { s@.drop_first() } else { s@ },
            forall|k: int| 0 <= k < digits.len() ==> digits[k] == s@[k + begin],
            all_digits(digits.take(i - begin)),
            limit == 9_223_372_036_854_775_808u64,
            !overflow ==> magnitude == digits_value(digits.take(i - begin)),
            !overflow ==> magnitude <= limit,
            overflow ==> digits_value(digits.take(i - begin)) > limit,
        decreases len - i,
    {
        let c: char = s.get_char(i);
        let code: u32 = c as u32;
        let ghost before: Seq<char> = digits.take(i - begin);
        let ghost after: Seq<char> = digits.take(i - begin + 1);
        assert(after.drop_last() == before);
        if code < 48 || code > 57 {
            return None;
        }
        assert(all_digits(after)) by {
            assert forall|k: int| 0 <= k < after.len() implies is_digit(#[trigger] after[k]) by {
                if k < before.len() {
                    assert(after[k] == before[k]);
                }
            }
        }
        let digit: u64 = (code - 48) as u64;
        if !overflow {
            if magnitude > (limit - digit) / 10 {
                overflow = true;
            } else {
                magnitude = magnitude * 10 + digit;
            }
        }
        i += 1;
    }
    assert(digits.take(len - begin) == digits);
    if overflow {
        return None;
    }
    if negative {
        if magnitude == limit {
            Some(i64::MIN)
        } else {
            Some(-(magnitude as i64))
        }
    } else if magnitude == limit {
        None
    } else {
        Some(magnitude as i64)
    }
}

/// The digit that writes a number below ten.
pub open spec fn digit_char(d: nat) -> char {
    if d == 0 {
        '0'
    } else if d == 1 {
        '1'
    } else if d == 2 {
        '2'
    } else if d == 3 {
        '3'
    } else if d == 4 {
        '4'
    } else if d == 5 {
        '5'
    } else if d == 6 {
        '6'
    } else if d == 7 {
        '7'
    } else if d == 8 {
        '8'
    } else {
        '9'
    }
}

/// A natural number in decimal, without leading zeros.
pub open spec fn digits_text(n: nat) -> Seq<char>
    decreases n,
{
    if n < 10 {
        seq![digit_char(n)]
    } else {
        digits_text(n / 10).push(digit_char(n % 10))
    }
}

/// An integer in decimal: a minus sign for a negative number, then its
/// digits without leading zeros.
pub open spec fn decimal_text(v: int) -> Seq<char> {
    if v < 0 {
        seq!['-'] + digits_text((-v) as nat)
    } else {
        digits_text(v as nat)
    }
}

/// The text of one digit.
fn digit_str(d: u64) -> (s: &'static str)
    requires
        d < 10,
    ensures
        s@ == seq![digit_char(d as nat)],
{
    proof {
        reveal_strlit("0");
        reveal_strlit("1");
        reveal_strlit("2");
        reveal_strlit("3");
        reveal_strlit("4");
        reveal_strlit("5");
        reveal_strlit("6");
        reveal_strlit("7");
        reveal_strlit("8");
        reveal_strlit("9");
    }
    let s = if d == 0 {
        "0"
    } else if d == 1 {
        "1"
    } else if d == 2 {
        "2"
    } else if d == 3 {
        "3"
    } else if d == 4 {
        "4"
    } else if d == 5 {
        "5"
    } else if d == 6 {
        "6"
    } else if d == 7 {
        "7"
    } else if d == 8 {
        "8"
    } else {
        "9"
    };
    assert(s@ =~= seq![digit_char(d as nat)]);
    s
}

/// Writes a natural number in decimal.
pub fn u64_to_string(n: u64) -> (text: String)
    ensures
        text@ == digits_text(n as nat),
{
    let mut text = String::from_str(digit_str(n % 10));
    let mut rest: u64 = n / 10;
    while rest > 0
        invariant
            rest > 0 ==> digits_text(n as nat) == digits_text(rest as nat) + text@,
            rest == 0 ==> digits_text(n as nat) == text@,
        decreases rest,
    {
        let digit = String::from_str(digit_str(rest % 10));
        proof {
            if rest >= 10 {
                assert(digits_text(rest as nat) + text@ == digits_text((rest / 10) as nat) + (
                digit@ + text@));
            }
        }
        text = digit.concat(text.as_str());
        rest = rest / 10;
    }
    text
}

/// Writes an integer in decimal.
pub fn i64_to_string(v: i64) -> (text: String)
    ensures
        text@ == decimal_text(v as int),
{
    if v < 0 {
        let magnitude: u64 = ((-(v + 1)) as u64) + 1;
        let digits = u64_to_string(magnitude);
        let text = String::from_str("-").concat(digits.as_str());
        proof {
            reveal_strlit("-");
        }
        text
    } else {
        u64_to_string(v as u64)
    }
}

/// The digits of a number write that number, and they are digits.
pub proof fn lemma_digits_text_value(n: nat)
    ensures
        digits_text(n).len() > 0,
        all_digits(digits_text(n)),
        digits_value(digits_text(n)) == n,
    decreases n,
{
    if n < 10 {
        let s = digits_text(n);
        assert(digits_value(s.drop_last()) == 0);
    } else {
        lemma_digits_text_value(n / 10);
        let s = digits_text(n);
        assert(s.drop_last() =~= digits_text(n / 10));
    }
}

/// Reading what was written gives the number back: the decimal text of a
/// 64-bit integer is read as that integer.
pub proof fn lemma_decimal_text_round_trip(v: i64)
    ensures
        i64_value(decimal_text(v as int)) == Some(v),
{
    let text = decimal_text(v as int);
    if v < 0 {
        let digits = digits_text((-v) as nat);
        lemma_digits_text_value((-v) as nat);
        assert(text.drop_first() =~= digits);
    } else {
        lemma_digits_text_value(v as nat);
    }
}

/// `text`, filled up with blanks on the right to `width` characters. A
/// text that is as long or longer stays as it is.
pub open spec fn padded(text: Seq<char>, width: nat) -> Seq<char> {
    if text.len() < width {
        text + Seq::new((width - text.len()) as nat, |i: int| ' ')
    } else {
        text
    }
}

/// Fills `text` up with blanks to `width` characters.
pub fn pad_right(text: &str, width: usize) -> (line: String)
    ensures
        line@ == padded(text@, width as nat),
{
    let mut line = String::from_str(text);
    let len: usize = text.unicode_len();
    let mut i: usize = len;
    proof {
        reveal_strlit(" ");
    }
    while i < width
        invariant
            len == text@.len(),
            len <= i,
            i <= width || i == len,
            line@ == text@ + Seq::new((i - len) as nat, |i: int| ' '),
            " "@ == seq![' '],
        decreases width - i,
    {
        line.append(" ");
        i += 1;
    }
    line
}

} // verus!
