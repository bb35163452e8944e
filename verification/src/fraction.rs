//! The playback fill fraction: an exact rational clamped to the unit
//! interval, derived from elapsed and total milliseconds. A zero or absent
//! duration yields fraction zero with denominator one, so nothing ever
//! divides by zero and the filled bar never exceeds the full bar.

use vstd::prelude::*;

verus! {

/// An exact rational in the unit interval; `wf` keeps the denominator
/// positive and the value at most one.
#[derive(Clone, Copy, PartialEq, Eq, Structural, Debug)]
pub struct Fraction {
    pub num: u64,
    pub den: u64,
}

impl Fraction {
    /// Well-formed: positive denominator, value clamped to at most one.
    pub open spec fn wf(self) -> bool {
        1 <= self.den && self.num <= self.den
    }
}

/// Elapsed playback defaults to zero when the transport reports none.
pub open spec fn elapsed_or_zero(e: Option<u64>) -> u64 {
    match e {
        Some(v) => v,
        None => 0,
    }
}

/// The fill fraction of the progress bar: elapsed over duration clamped to
/// one; zero (over one) when the duration is zero or absent.
pub open spec fn spec_fill_fraction(e: Option<u64>, d: Option<u64>) -> Fraction {
    match d {
        Some(dv) => if dv > 0 {
            Fraction {
                num: if elapsed_or_zero(e) <= dv {
                    elapsed_or_zero(e)
                } else {
                    dv
                },
                den: dv,
            }
        } else {
            Fraction { num: 0, den: 1 }
        },
        None => Fraction { num: 0, den: 1 },
    }
}

/// Computes the fill fraction of the progress bar from elapsed and total
/// milliseconds.
pub fn fill_fraction(elapsed_ms: Option<u64>, duration_ms: Option<u64>) -> (f: Fraction)
    ensures
        f == spec_fill_fraction(elapsed_ms, duration_ms),
        f.wf(),
{
    let e = match elapsed_ms {
        Some(v) => v,
        None => 0,
    };
    match duration_ms {
        Some(dv) => if dv > 0 {
            Fraction { num: if e <= dv { e } else { dv }, den: dv }
        } else {
            Fraction { num: 0, den: 1 }
        },
        None => Fraction { num: 0, den: 1 },
    }
}

/// The fill fraction is always well-formed: its denominator is positive (no
/// division by zero on any input) and its value never exceeds one (the filled
/// bar never exceeds the bar width).
pub proof fn lemma_fill_fraction_wf(e: Option<u64>, d: Option<u64>)
    ensures
        spec_fill_fraction(e, d).wf(),
{
}

/// Once elapsed reaches the duration, the fraction clamps to exactly one.
pub proof fn lemma_fill_fraction_clamps(e: Option<u64>, d: Option<u64>)
    requires
        d is Some,
        d->0 > 0,
        elapsed_or_zero(e) >= d->0,
    ensures
        spec_fill_fraction(e, d).num == spec_fill_fraction(e, d).den,
{
}

/// A zero or absent duration yields fraction zero over a positive
/// denominator.
pub proof fn lemma_fill_fraction_zero_duration(e: Option<u64>, d: Option<u64>)
    requires
        d is None || d == Some(0u64),
    ensures
        spec_fill_fraction(e, d).num == 0,
        spec_fill_fraction(e, d).den == 1,
{
}

/// The "up next" overlay shows exactly when the playback fraction has
/// reached nine tenths.
pub open spec fn spec_up_next_visible(f: Fraction) -> bool {
    10 * (f.num as int) >= 9 * (f.den as int)
}

/// Decides whether the "up next" overlay is shown: exactly when the playback
/// fraction has reached nine tenths.
pub fn up_next_visible(f: &Fraction) -> (r: bool)
    ensures
        r == spec_up_next_visible(*f),
{
    10 * (f.num as u128) >= 9 * (f.den as u128)
}

/// The overlay's own mini progress bar: the tail of playback from fraction
/// nine tenths to one, rescaled to the unit interval.
pub open spec fn spec_overlay_fraction(f: Fraction) -> Fraction {
    Fraction { num: (10 * f.num - 9 * f.den) as u64, den: f.den }
}

/// Rescales the last tenth of playback onto the whole unit interval for the
/// overlay's mini progress bar.
pub fn overlay_fraction(f: &Fraction) -> (r: Fraction)
    requires
        f.wf(),
        spec_up_next_visible(*f),
    ensures
        r == spec_overlay_fraction(*f),
        r.wf(),
{
    let num = (10 * (f.num as u128) - 9 * (f.den as u128)) as u64;
    Fraction { num, den: f.den }
}

} // verus!
