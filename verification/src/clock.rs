//! Clock labels for the progress bar: seconds rendered as "M:SS" with
//! zero-padded seconds.

use vstd::prelude::*;
use vstd::string::StringExecFns;

verus! {

/// The decimal digit `d` as a character.
pub open spec fn digit_char(d: int) -> char {
    if d == 0 {
        '0'
    } else if d == 1 {
        '1'
    } else if d == 2 {
        '2'
    } else if d == 3 {
        '3'
    } else if d == 4 {
        '4'
    } else if d == 5 {
        '5'
    } else if d == 6 {
        '6'
    } else if d == 7 {
        '7'
    } else if d == 8 {
        '8'
    } else {
        '9'
    }
}

/// The decimal digits of `n`, most significant first, without leading zeroes
/// (a single `'0'` for zero).
pub open spec fn dec_digits(n: nat) -> Seq<char>
    decreases n,
{
    if n < 10 {
        seq![digit_char(n as int)]
    } else {
        dec_digits(n / 10) + seq![digit_char((n % 10) as int)]
    }
}

/// The "M:SS" clock label: whole minutes, a colon, then the remaining seconds
/// zero-padded to two digits.
pub open spec fn clock_label(secs: nat) -> Seq<char> {
    dec_digits(secs / 60) + seq![':', digit_char(((secs % 60) / 10) as int), digit_char(
        ((secs % 60) % 10) as int,
    )]
}

fn digit_str(d: u64) -> (r: &'static str)
    requires
        d < 10,
    ensures
        r@ == seq![digit_char(d as int)],
{
    proof {
        reveal_strlit("0");
        reveal_strlit("1");
        reveal_strlit("2");
        reveal_strlit("3");
        reveal_strlit("4");
        reveal_strlit("5");
        reveal_strlit("6");
        reveal_strlit("7");
        reveal_strlit("8");
        reveal_strlit("9");
        assert("0"@ =~= seq![digit_char(0)]);
        assert("1"@ =~= seq![digit_char(1)]);
        assert("2"@ =~= seq![digit_char(2)]);
        assert("3"@ =~= seq![digit_char(3)]);
        assert("4"@ =~= seq![digit_char(4)]);
        assert("5"@ =~= seq![digit_char(5)]);
        assert("6"@ =~= seq![digit_char(6)]);
        assert("7"@ =~= seq![digit_char(7)]);
        assert("8"@ =~= seq![digit_char(8)]);
        assert("9"@ =~= seq![digit_char(9)]);
    }
    match d {
        0 => "0",
        1 => "1",
        2 => "2",
        3 => "3",
        4 => "4",
        5 => "5",
        6 => "6",
        7 => "7",
        8 => "8",
        _ => "9",
    }
}

/// Appends the decimal digits of `n` to `out`.
pub fn push_decimal(out: &mut String, n: u64)
    ensures
        final(out)@ == old(out)@ + dec_digits(n as nat),
    decreases n,
{
    if n < 10 {
        out.append(digit_str(n));
    } else {
        push_decimal(out, n / 10);
        out.append(digit_str(n % 10));
        assert(out@ =~= old(out)@ + dec_digits(n as nat));
    }
}

/// Renders a number of seconds as the "M:SS" label shown beside the progress
/// bar (for example 65 seconds as "1:05").
pub fn format_clock(secs: u64) -> (r: String)
    ensures
        r@ == clock_label(secs as nat),
{
    let mut out = String::new();
    push_decimal(&mut out, secs / 60);
    proof {
        reveal_strlit(":");
    }
    out.append(":");
    let rem = secs % 60;
    out.append(digit_str(rem / 10));
    out.append(digit_str(rem % 10));
    proof {
        assert(":"@ =~= seq![':']);
        assert(out@ =~= clock_label(secs as nat));
    }
    out
}

/// The whole seconds of elapsed playback: zero when the transport reports
/// none.
pub open spec fn spec_elapsed_secs(elapsed_ms: Option<u64>) -> nat {
    match elapsed_ms {
        Some(v) => (v / 1000) as nat,
        None => 0,
    }
}

/// The whole seconds of the track duration: one when the transport reports
/// none.
pub open spec fn spec_duration_secs(duration_ms: Option<u64>) -> nat {
    match duration_ms {
        Some(v) => (v / 1000) as nat,
        None => 1,
    }
}

/// The elapsed label beside the bar: elapsed milliseconds as "M:SS", zero
/// when absent.
pub fn elapsed_label(elapsed_ms: Option<u64>) -> (r: String)
    ensures
        r@ == clock_label(spec_elapsed_secs(elapsed_ms)),
{
    let secs = match elapsed_ms {
        Some(v) => v / 1000,
        None => 0,
    };
    format_clock(secs)
}

/// The duration label beside the bar: the track length as "M:SS", one second
/// when absent.
pub fn duration_label(duration_ms: Option<u64>) -> (r: String)
    ensures
        r@ == clock_label(spec_duration_secs(duration_ms)),
{
    let secs = match duration_ms {
        Some(v) => v / 1000,
        None => 1,
    };
    format_clock(secs)
}

} // verus!
