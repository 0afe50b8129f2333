//! Cost amounts and their severity. A cost is held as a whole number of
//! micro-dollars (one millionth of a USD), so every comparison and rendering
//! below is exact.

use vstd::prelude::*;
use crate::decimal::{dec_digits, trim_zeros, padded_dec, pow10, u64_to_dec, format_fraction};

verus! {

pub const MICROS_PER_DOLLAR: u64 = 1000000;

/// Costs below half a dollar are fine.
pub const WARNING_MIN_MICROS: u64 = 500000;

/// Costs of a dollar or more are alarming.
pub const DANGER_MIN_MICROS: u64 = 1000000;

/// How alarming a daily cost is.
#[derive(Clone, Copy, PartialEq, Eq, Structural, Debug)]
pub enum Severity {
    Good,
    Warning,
    Danger,
}

pub open spec fn spec_severity(micros: nat) -> Severity {
    if micros < WARNING_MIN_MICROS {
        Severity::Good
    } else if micros < DANGER_MIN_MICROS {
        Severity::Warning
    } else {
        Severity::Danger
    }
}

/// Classify a cost: below $0.50 is good, from $0.50 up to but not including
/// $1.00 is a warning, $1.00 or more is danger.
pub fn severity_of(micros: u64) -> (r: Severity)
    ensures
        r == spec_severity(micros as nat),
        r == Severity::Good <==> micros < WARNING_MIN_MICROS,
        r == Severity::Warning <==> WARNING_MIN_MICROS <= micros < DANGER_MIN_MICROS,
        r == Severity::Danger <==> DANGER_MIN_MICROS <= micros,
{
    if micros < WARNING_MIN_MICROS {
        Severity::Good
    } else if micros < DANGER_MIN_MICROS {
        Severity::Warning
    } else {
        Severity::Danger
    }
}

/// The color tag the webhook expects for each severity.
pub open spec fn spec_color_tag(s: Severity) -> Seq<char> {
    match s {
        Severity::Good => "good"@,
        Severity::Warning => "warning"@,
        Severity::Danger => "#ff0000"@,
    }
}

pub fn color_tag(s: Severity) -> (r: &'static str)
    ensures
        r@ == spec_color_tag(s),
{
    match s {
        Severity::Good => "good",
        Severity::Warning => "warning",
        Severity::Danger => "#ff0000",
    }
}

/// For every cost, the color is "good" exactly below $0.50, "warning"
/// exactly from $0.50 up to but not including $1.00, and the danger hex
/// exactly from $1.00 on.
pub proof fn lemma_color_thresholds(micros: nat)
    ensures
        spec_color_tag(spec_severity(micros)) == "good"@ <==> micros < WARNING_MIN_MICROS,
        spec_color_tag(spec_severity(micros)) == "warning"@ <==> WARNING_MIN_MICROS <= micros
            < DANGER_MIN_MICROS,
        spec_color_tag(spec_severity(micros)) == "#ff0000"@ <==> DANGER_MIN_MICROS <= micros,
{
    reveal_strlit("good");
    reveal_strlit("warning");
    reveal_strlit("#ff0000");
    assert("good"@.len() == 4);
    assert("warning"@.len() == 7);
    assert("#ff0000"@.len() == 7);
    assert("warning"@[0] == 'w');
    assert("#ff0000"@[0] == '#');
}

/// A cost in dollars, written the short way: no trailing fraction zeros and
/// no fraction point for a whole amount.
pub open spec fn spec_usd(micros: nat) -> Seq<char> {
    let whole = micros / (MICROS_PER_DOLLAR as nat);
    let frac = micros % (MICROS_PER_DOLLAR as nat);
    if frac == 0 {
        dec_digits(whole)
    } else {
        dec_digits(whole) + "."@ + trim_zeros(padded_dec(frac, 6))
    }
}

/// Render a cost in dollars, e.g. 420000 micro-dollars as `0.42`.
pub fn format_usd(micros: u64) -> (r: String)
    ensures
        r@ == spec_usd(micros as nat),
{
    let whole = micros / MICROS_PER_DOLLAR;
    let frac = micros % MICROS_PER_DOLLAR;
    if frac == 0 {
        u64_to_dec(whole)
    } else {
        proof {
            reveal_with_fuel(pow10, 7);
            assert(pow10(6) == 1000000);
        }
        let mut s = u64_to_dec(whole);
        s.append(".");
        s.append(format_fraction(frac, 6).as_str());
        s
    }
}

} // verus!
