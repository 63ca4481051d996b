//! Whole numbers as decimal text, and back.
//!
//! A number is written with its digits alone, `-` before them if it is
//! negative, and no zero before the first digit but for zero itself. It is
//! read more freely: a `+` may stand before the digits, and so may zeros.
//! Nothing else may: no blanks, no underscores, no digits of other scripts.

use vstd::prelude::*;
use vstd::string::StringExecFns;

verus! {

/// The character of a digit.
pub open spec fn digit_char(digit: nat) -> char {
    if digit == 0 {
        '0'
    } else if digit == 1 {
        '1'
    } else if digit == 2 {
        '2'
    } else if digit == 3 {
        '3'
    } else if digit == 4 {
        '4'
    } else if digit == 5 {
        '5'
    } else if digit == 6 {
        '6'
    } else if digit == 7 {
        '7'
    } else if digit == 8 {
        '8'
    } else {
        '9'
    }
}

/// The digit that a character stands for, if it is one of `0` to `9`.
pub open spec fn digit_value(c: char) -> Option<nat> {
    if c == '0' {
        Some(0)
    } else if c == '1' {
        Some(1)
    } else if c == '2' {
        Some(2)
    } else if c == '3' {
        Some(3)
    } else if c == '4' {
        Some(4)
    } else if c == '5' {
        Some(5)
    } else if c == '6' {
        Some(6)
    } else if c == '7' {
        Some(7)
    } else if c == '8' {
        Some(8)
    } else if c == '9' {
        Some(9)
    } else {
        None
    }
}

/// The digits of a number, the highest first.
pub open spec fn digits(n: nat) -> Seq<char>
    decreases n,
{
    if n < 10 {
        seq![digit_char(n)]
    } else {
        digits(n / 10).push(digit_char(n % 10))
    }
}

/// A whole number as text.
pub open spec fn spec_format(n: int) -> Seq<char> {
    if n < 0 {
        seq!['-'] + digits((-n) as nat)
    } else {
        digits(n as nat)
    }
}

/// The number that a run of digits stands for. An empty run stands for
/// none, and neither does a run with anything but digits in it.
pub open spec fn digits_value(s: Seq<char>) -> Option<nat>
    decreases s.len(),
{
    if s.len() == 0 {
        None
    } else if s.len() == 1 {
        digit_value(s[0])
    } else {
        match (digits_value(s.drop_last()), digit_value(s.last())) {
            (Some(high), Some(low)) => Some(high * 10 + low),
            _ => None,
        }
    }
}

/// How many characters of a text are its sign. A `-` is a sign only where
/// negative numbers are read at all.
pub open spec fn sign_len(s: Seq<char>, signed: bool) -> int {
    if s.len() > 0 && (s[0] == '+' || (signed && s[0] == '-')) {
        1
    } else {
        0
    }
}

/// The number that a text stands for, if it stands for one from `min` to
/// `max`.
pub open spec fn spec_parse(s: Seq<char>, min: int, max: int) -> Option<int> {
    let signed = min < 0;
    let negative = signed && s.len() > 0 && s[0] == '-';
    match digits_value(s.skip(sign_len(s, signed))) {
        Some(magnitude) => {
            let n = if negative {
                -magnitude
            } else {
                magnitude as int
            };
            if min <= n <= max {
                Some(n)
            } else {
                None
            }
        },
        None => None,
    }
}

/// A run of digits stands for a number exactly if it is not empty and holds
/// digits alone.
pub proof fn lemma_digits_value_some(s: Seq<char>)
    ensures
        digits_value(s) is Some <==> s.len() > 0 && forall|i: int|
            0 <= i < s.len() ==> (#[trigger] digit_value(s[i])) is Some,
    decreases s.len(),
{
    if s.len() > 1 {
        let front = s.drop_last();
        lemma_digits_value_some(front);
        assert forall|i: int| 0 <= i < front.len() implies front[i] == s[i] by {}
        if digits_value(s) is Some {
            assert forall|i: int| 0 <= i < s.len() implies (#[trigger] digit_value(
                s[i],
            )) is Some by {
                if i < front.len() {
                    assert(digit_value(front[i]) is Some);
                }
            }
        }
    }
}

/// The first digits of a run stand for no more than the whole run does.
pub proof fn lemma_digits_value_grows(s: Seq<char>, k: int)
    requires
        0 < k <= s.len(),
        digits_value(s) is Some,
    ensures
        digits_value(s.take(k)) is Some,
        digits_value(s.take(k))->Some_0 <= digits_value(s)->Some_0,
    decreases s.len() - k,
{
    if k == s.len() {
        assert(s.take(k) =~= s);
    } else {
        let front = s.drop_last();
        assert(front.take(k) =~= s.take(k));
        lemma_digits_value_grows(front, k);
    }
}

/// The digits of a number are digits, the first of them no sign, and they
/// stand for the number.
pub proof fn lemma_digits_round_trip(n: nat)
    ensures
        digits(n).len() > 0,
        digits_value(digits(n)) == Some(n),
        digit_value(digits(n)[0]) is Some,
    decreases n,
{
    if n >= 10 {
        lemma_digits_round_trip(n / 10);
        let front = digits(n / 10);
        let all = digits(n);
        assert(all.drop_last() =~= front);
    }
}

/// Reading what was written gives the number back, for every number from
/// `min` to `max`.
pub proof fn lemma_format_round_trip(n: int, min: int, max: int)
    requires
        min <= 0,
        min <= n <= max,
    ensures
        spec_parse(spec_format(n), min, max) == Some(n),
{
    let text = spec_format(n);
    if n < 0 {
        let magnitude = (-n) as nat;
        lemma_digits_round_trip(magnitude);
        assert(text.skip(1) =~= digits(magnitude));
    } else {
        lemma_digits_round_trip(n as nat);
        assert(text.skip(0) =~= text);
    }
}

/// The text of one digit.
fn digit_text(digit: u64) -> (text: &'static str)
    requires
        digit < 10,
    ensures
        text@ == seq![digit_char(digit as nat)],
{
    proof {
        reveal_strlit("0");
        reveal_strlit("1");
        reveal_strlit("2");
        reveal_strlit("3");
        reveal_strlit("4");
        reveal_strlit("5");
        reveal_strlit("6");
        reveal_strlit("7");
        reveal_strlit("8");
        reveal_strlit("9");
    }
    let text = if digit == 0 {
        "0"
    } else if digit == 1 {
        "1"
    } else if digit == 2 {
        "2"
    } else if digit == 3 {
        "3"
    } else if digit == 4 {
        "4"
    } else if digit == 5 {
        "5"
    } else if digit == 6 {
        "6"
    } else if digit == 7 {
        "7"
    } else if digit == 8 {
        "8"
    } else {
        "9"
    };
    text
}

/// Writes a number that has no sign.
pub fn format_unsigned(n: u64) -> (text: String)
    ensures
        text@ == spec_format(n as int),
    decreases n,
{
    if n < 10 {
        String::from_str(digit_text(n))
    } else {
        let mut text = format_unsigned(n / 10);
        text.append(digit_text(n % 10));
        text
    }
}

/// Writes a number that may be negative.
pub fn format_signed(n: i64) -> (text: String)
    ensures
        text@ == spec_format(n as int),
{
    if n < 0 {
        // The magnitude of the least number is one more than the greatest number.
        let magnitude = (-(n + 1)) as u64 + 1;
        let digits = format_unsigned(magnitude);
        proof {
            reveal_strlit("-");
        }
        let text = String::from_str("-").concat(digits.as_str());
        text
    } else {
        format_unsigned(n as u64)
    }
}

/// The digit that a character stands for.
fn digit_of(c: char) -> (digit: Option<u64>)
    ensures
        match digit {
            Some(d) => digit_value(c) == Some(d as nat) && d < 10,
            None => digit_value(c) is None,
        },
{
    if c == '0' {
        Some(0)
    } else if c == '1' {
        Some(1)
    } else if c == '2' {
        Some(2)
    } else if c == '3' {
        Some(3)
    } else if c == '4' {
        Some(4)
    } else if c == '5' {
        Some(5)
    } else if c == '6' {
        Some(6)
    } else if c == '7' {
        Some(7)
    } else if c == '8' {
        Some(8)
    } else if c == '9' {
        Some(9)
    } else {
        None
    }
}

/// Reads a sign and digits. What comes back is whether the sign was `-`,
/// and what the digits stand for where that is at most `positive_max`, or
/// `negative_max` after a `-`.
fn parse_magnitude(text: &str, positive_max: u64, negative_max: u64) -> (read: Option<
    (bool, u64),
>)
    ensures
        ({
            let signed = negative_max > 0;
            let negative = signed && text@.len() > 0 && text@[0] == '-';
            let limit = if negative {
                negative_max
            } else {
                positive_max
            };
            match digits_value(text@.skip(sign_len(text@, signed))) {
                Some(magnitude) => if magnitude <= limit {
                    read == Some((negative, magnitude as u64))
                } else {
                    read is None
                },
                None => read is None,
            }
        }),
{
    let signed = negative_max > 0;
    let mut negative = false;
    let mut first = true;
    let mut any_digit = false;
    let mut value: u64 = 0;
    let mut limit: u64 = positive_max;
    let ghost start = sign_len(text@, signed);
    for c in it: text.chars()
        invariant
            it.seq() == text@,
            signed == (negative_max > 0),
            start == sign_len(text@, signed),
            first == (it.index() == 0),
            negative == (signed && it.index() > 0 && text@[0] == '-'),
            limit == if negative {
                negative_max
            } else {
                positive_max
            },
            any_digit == (it.index() > start),
            !any_digit ==> value == 0,
            any_digit ==> digits_value(text@.subrange(start, it.index() as int)) == Some(
                value as nat,
            ),
            value <= limit,
    {
        let ghost seen = it.index() as int;
        let ghost body = text@.skip(start);
        if first && (c == '+' || (signed && c == '-')) {
            if c == '-' {
                negative = true;
                limit = negative_max;
            }
        } else {
            let digit = match digit_of(c) {
                Some(digit) => digit,
                None => {
                    proof {
                        lemma_digits_value_some(body);
                        assert(digit_value(body[seen - start]) is None);
                    }
                    return None;
                },
            };
            let ghost read_now = text@.subrange(start, seen + 1);
            proof {
                assert(read_now.drop_last() =~= text@.subrange(start, seen));
                assert(read_now =~= body.take(seen + 1 - start));
            }
            let next = match value.checked_mul(10) {
                Some(tens) => tens.checked_add(digit),
                None => None,
            };
            match next {
                Some(sum) if sum <= limit => {
                    value = sum;
                },
                _ => {
                    proof {
                        if digits_value(body) is Some {
                            lemma_digits_value_grows(body, seen + 1 - start);
                        }
                    }
                    return None;
                },
            }
            any_digit = true;
        }
        first = false;
    }
    assert(text@.subrange(start, text@.len() as int) =~= text@.skip(start));
    if any_digit {
        Some((negative, value))
    } else {
        None
    }
}

/// Reads a number that has no sign, up to `max`.
pub fn parse_unsigned(text: &str, max: u64) -> (read: Option<u64>)
    ensures
        match read {
            Some(n) => spec_parse(text@, 0, max as int) == Some(n as int),
            None => spec_parse(text@, 0, max as int) is None,
        },
{
    match parse_magnitude(text, max, 0) {
        Some((_, magnitude)) => Some(magnitude),
        None => None,
    }
}

/// Reads a number from `min` to `max`.
pub fn parse_signed(text: &str, min: i64, max: i64) -> (read: Option<i64>)
    ensures
        match read {
            Some(n) => spec_parse(text@, min as int, max as int) == Some(n as int),
            None => spec_parse(text@, min as int, max as int) is None,
        },
{
    // The magnitude of the least number is one more than the greatest number.
    let negative_max = if min < 0 {
        (-(min + 1)) as u64 + 1
    } else {
        0
    };
    let positive_max = if max >= 0 {
        max as u64
    } else {
        0
    };
    let n = match parse_magnitude(text, positive_max, negative_max) {
        Some((true, magnitude)) => {
            if magnitude == negative_max {
                min
            } else {
                -(magnitude as i64)
            }
        },
        Some((false, magnitude)) => magnitude as i64,
        None => return None,
    };
    if min <= n && n <= max {
        Some(n)
    } else {
        None
    }
}

} // verus!
