//! Decimal integers as text: reading them from the service's string fields
//! and writing them into reports and request bodies.

use vstd::prelude::*;

verus! {

/// The character of a decimal digit `d` (0 to 9).
pub open spec fn digit_char(d: int) -> char {
    (48 + d) as char
}

pub open spec fn is_digit(c: char) -> bool {
    '0' <= c && c <= '9'
}

pub open spec fn digit_value(c: char) -> int {
    c as int - 48
}

/// The digits of `n` in base ten, most significant first, without leading zeros.
pub open spec fn decimal_text(n: nat) -> Seq<char>
    decreases n,
{
    if n < 10 {
        seq![digit_char(n as int)]
    } else {
        decimal_text(n / 10).push(digit_char((n % 10) as int))
    }
}

/// `v` in base ten, with a leading `-` when negative.
pub open spec fn signed_text(v: int) -> Seq<char> {
    if v < 0 {
        seq!['-'] + decimal_text((-v) as nat)
    } else {
        decimal_text(v as nat)
    }
}

/// The value of a string of decimal digits.
pub open spec fn digits_value(s: Seq<char>) -> int
    decreases s.len(),
{
    if s.len() == 0 {
        0
    } else {
        10 * digits_value(s.drop_last()) + digit_value(s.last())
    }
}

pub open spec fn all_digits(s: Seq<char>) -> bool {
    s.len() > 0 && forall|i: int| 0 <= i < s.len() ==> is_digit(#[trigger] s[i])
}

/// An optional sign followed by one or more decimal digits, and nothing else.
pub open spec fn decimal_value(s: Seq<char>) -> Option<int> {
    if s.len() > 0 && (s[0] == '+' || s[0] == '-') {
        if all_digits(s.drop_first()) {
            if s[0] == '-' {
                Some(-digits_value(s.drop_first()))
            } else {
                Some(digits_value(s.drop_first()))
            }
        } else {
            None
        }
    } else if all_digits(s) {
        Some(digits_value(s))
    } else {
        None
    }
}

/// What reading `s` as an `i64` gives: its decimal value where that fits.
pub open spec fn parsed_i64(s: Seq<char>) -> Option<i64> {
    match decimal_value(s) {
        Some(v) => if i64::MIN <= v <= i64::MAX {
            Some(v as i64)
        } else {
            None
        },
        None => None,
    }
}

/// Relies on `<i64 as FromStr>::from_str`, which accepts an optional `+` or
/// `-` followed by decimal digits only, and fails when the value overflows.
#[verifier::external_body]
pub(crate) fn parse_i64(s: &str) -> (r: Option<i64>)
    ensures
        r == parsed_i64(s@),
{
    s.parse::<i64>().ok()
}

/// What reading `s` as a `u32` gives: an optional `+` and decimal digits,
/// where the value fits.
pub open spec fn parsed_u32(s: Seq<char>) -> Option<u32> {
    if s.len() > 0 && s[0] == '-' {
        None
    } else {
        match decimal_value(s) {
            Some(v) => if 0 <= v <= u32::MAX {
                Some(v as u32)
            } else {
                None
            },
            None => None,
        }
    }
}

/// Relies on `<u32 as FromStr>::from_str`, which accepts an optional `+`
/// followed by decimal digits only, and fails when the value overflows.
#[verifier::external_body]
pub(crate) fn parse_u32(s: &str) -> (r: Option<u32>)
    ensures
        r == parsed_u32(s@),
{
    s.parse::<u32>().ok()
}

fn digit_str(d: u64) -> (r: &'static str)
    requires
        d < 10,
    ensures
        r@ == seq![digit_char(d as int)],
{
    proof {
        reveal_strlit("0");
        reveal_strlit("1");
        reveal_strlit("2");
        reveal_strlit("3");
        reveal_strlit("4");
        reveal_strlit("5");
        reveal_strlit("6");
        reveal_strlit("7");
        reveal_strlit("8");
        reveal_strlit("9");
    }
    match d {
        0 => "0",
        1 => "1",
        2 => "2",
        3 => "3",
        4 => "4",
        5 => "5",
        6 => "6",
        7 => "7",
        8 => "8",
        _ => "9",
    }
}

/// Appends the digits of `n` to `out`.
pub fn push_decimal(out: &mut String, n: u64)
    ensures
        final(out)@ == old(out)@ + decimal_text(n as nat),
    decreases n,
{
    if n >= 10 {
        push_decimal(out, n / 10);
    }
    out.append(digit_str(n % 10));
    proof {
        assert(out@ =~= old(out)@ + decimal_text(n as nat));
    }
}

/// Appends `v` in base ten, with a leading `-` when negative.
pub fn push_signed(out: &mut String, v: i64)
    ensures
        final(out)@ == old(out)@ + signed_text(v as int),
{
    if v < 0 {
        proof {
            reveal_strlit("-");
        }
        out.append("-");
        let magnitude: u64 = (-(v + 1)) as u64 + 1;
        push_decimal(out, magnitude);
        assert(out@ =~= old(out)@ + signed_text(v as int));
    } else {
        push_decimal(out, v as u64);
    }
}

} // verus!
