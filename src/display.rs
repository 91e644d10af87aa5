//! Durations as hours of text, and the reports built from them.

use vstd::prelude::*;
use crate::decimal::{decimal_text, digit_char, push_decimal};
use crate::time::HOUR_MS;

verus! {

pub open spec fn abs(v: int) -> int {
    if v < 0 {
        -v
    } else {
        v
    }
}

pub open spec fn sign_text(v: int) -> Seq<char> {
    if v < 0 {
        seq!['-']
    } else {
        Seq::empty()
    }
}

/// `ms` rounded to the nearest hundredth of an hour, halves away from zero.
pub open spec fn hundredths_of_hour(ms: int) -> nat {
    ((abs(ms) + 18_000) / 36_000) as nat
}

/// The two digits of `c % 100`.
pub open spec fn two_digits(c: nat) -> Seq<char> {
    seq![digit_char(((c % 100) / 10) as int), digit_char((c % 10) as int)]
}

/// A duration in hours: whole hours with no decimals (`8h`), any other
/// duration with exactly two (`7.50h`).
pub open spec fn hours_text(ms: int) -> Seq<char> {
    if abs(ms) % (HOUR_MS as int) == 0 {
        sign_text(ms) + decimal_text((abs(ms) / (HOUR_MS as int)) as nat) + seq!['h']
    } else {
        sign_text(ms) + decimal_text(hundredths_of_hour(ms) / 100) + seq!['.'] + two_digits(
            hundredths_of_hour(ms),
        ) + seq!['h']
    }
}

/// Whether a text holds a decimal point.
pub open spec fn has_decimals(t: Seq<char>) -> bool {
    t.contains('.')
}

proof fn decimal_text_has_no_point(n: nat)
    ensures
        !decimal_text(n).contains('.'),
    decreases n,
{
    if n >= 10 {
        decimal_text_has_no_point(n / 10);
        let t = decimal_text(n);
        assert forall|i: int| 0 <= i < t.len() implies t[i] != '.' by {
            if i < t.len() - 1 {
                assert(t[i] == decimal_text(n / 10)[i]);
            }
        }
    }
}

/// A duration is written without decimals exactly when it is a whole number
/// of hours.
pub proof fn hours_text_whole_form(ms: int)
    ensures
        !has_decimals(hours_text(ms)) <==> ms % (HOUR_MS as int) == 0,
{
    let a = abs(ms);
    let t = hours_text(ms);
    assert(a % (HOUR_MS as int) == 0 <==> ms % (HOUR_MS as int) == 0);
    if a % (HOUR_MS as int) == 0 {
        let d = decimal_text((a / (HOUR_MS as int)) as nat);
        decimal_text_has_no_point((a / (HOUR_MS as int)) as nat);
        assert forall|i: int| 0 <= i < t.len() implies t[i] != '.' by {
            if ms < 0 && i == 0 {
            } else if i < t.len() - 1 {
                assert(t[i] == d[i - sign_text(ms).len()]);
            }
        }
    } else {
        let k = sign_text(ms).len() + decimal_text(hundredths_of_hour(ms) / 100).len();
        assert(t[k as int] == '.');
    }
}

/// A daily quota, and the weekly quota of five such days, are each written
/// without decimals exactly when they are whole numbers of hours.
pub proof fn quota_whole_forms(daily_quota_ms: int)
    requires
        daily_quota_ms > 0,
    ensures
        !has_decimals(hours_text(daily_quota_ms)) <==> daily_quota_ms % (HOUR_MS as int) == 0,
        !has_decimals(hours_text(5 * daily_quota_ms)) <==> (5 * daily_quota_ms) % (HOUR_MS as int)
            == 0,
{
    hours_text_whole_form(daily_quota_ms);
    hours_text_whole_form(5 * daily_quota_ms);
}

/// Writes a duration in hours: whole hours with no decimals (`8h`), any other
/// duration rounded to exactly two (`7.50h`).
pub fn fmt_time(duration_ms: i64) -> (r: String)
    ensures
        r@ == hours_text(duration_ms as int),
        !has_decimals(r@) <==> duration_ms % HOUR_MS == 0,
{
    proof {
        hours_text_whole_form(duration_ms as int);
        reveal_strlit("-");
        reveal_strlit("h");
        reveal_strlit(".");
    }
    let mut out = String::new();
    let magnitude: u64 = if duration_ms < 0 {
        out.append("-");
        (-(duration_ms + 1)) as u64 + 1
    } else {
        duration_ms as u64
    };
    assert(out@ == sign_text(duration_ms as int));
    if magnitude % 3_600_000 == 0 {
        push_decimal(&mut out, magnitude / 3_600_000);
    } else {
        let c: u64 = (magnitude + 18_000) / 36_000;
        push_decimal(&mut out, c / 100);
        out.append(".");
        push_decimal(&mut out, (c % 100) / 10);
        push_decimal(&mut out, c % 10);
    }
    out.append("h");
    assert(out@ =~= hours_text(duration_ms as int));
    out
}

} // verus!
