//! Font sizing: the viewport-derived initial sizes of every text block, and
//! the auto-shrink loop that steps a font size down by five percent until the
//! measured title or artist line fits the space right of the album art.
//!
//! The shell measures a block once at a reference size; for a scalable font
//! the measured advance grows linearly with the font size, so the width at
//! any other size is that measurement rescaled. All sizes and widths are in
//! milli-pixels.

use vstd::prelude::*;

verus! {

/// The floor of the shrink loop, one pixel: it guards termination on
/// pathological fonts or strings that never fit.
pub const MIN_FONT_MILLI: u64 = 1000;

/// The width a text block measures at font size `s`, given that it measured
/// `ref_w` wide at font size `ref_s`: linear rescaling, rounded down.
pub open spec fn width_at(ref_w: int, ref_s: int, s: int) -> int
    recommends
        ref_s >= 1,
{
    ref_w * s / ref_s
}

/// Rescaled widths grow with the font size: shrinking the size never widens
/// the block.
pub proof fn lemma_width_monotone(ref_w: int, ref_s: int, s1: int, s2: int)
    requires
        ref_w >= 0,
        ref_s >= 1,
        0 <= s1 <= s2,
    ensures
        width_at(ref_w, ref_s, s1) <= width_at(ref_w, ref_s, s2),
{
    vstd::arithmetic::mul::lemma_mul_inequality(s1, s2, ref_w);
    vstd::arithmetic::div_mod::lemma_div_is_ordered(ref_w * s1, ref_w * s2, ref_s);
}

fn measured_width_ge(ref_w: u64, ref_s: u64, s: u64, bound: u64) -> (r: bool)
    requires
        ref_s >= 1,
    ensures
        r == (width_at(ref_w as int, ref_s as int, s as int) >= bound),
{
    let w = ref_w as u128;
    let z = s as u128;
    proof {
        assert(w * z < 0x1_0000_0000_0000_0000_0000_0000_0000_0000) by (nonlinear_arith)
            requires
                w < 0x1_0000_0000_0000_0000,
                z < 0x1_0000_0000_0000_0000,
        ;
    }
    w * z / (ref_s as u128) >= bound as u128
}

/// One shrink step: five percent off, clamped to the floor.
pub open spec fn spec_shrink_step(s: int) -> int {
    if s * 95 / 100 >= MIN_FONT_MILLI {
        s * 95 / 100
    } else {
        MIN_FONT_MILLI as int
    }
}

fn shrink_step(s: u64) -> (r: u64)
    requires
        s > MIN_FONT_MILLI,
    ensures
        r == spec_shrink_step(s as int),
        MIN_FONT_MILLI <= r < s,
{
    let shrunk = ((s as u128) * 95 / 100) as u64;
    if shrunk >= MIN_FONT_MILLI {
        shrunk
    } else {
        MIN_FONT_MILLI
    }
}

/// The size the shrink loop settles on: step five percent down from `s` while
/// the block, measured `ref_w` wide at size `ref_s`, is at least `avail`
/// wide, stopping at the one-pixel floor.
pub open spec fn spec_fit_font_size(ref_w: int, ref_s: int, s: int, avail: int) -> int
    recommends
        ref_s >= 1,
    decreases s - MIN_FONT_MILLI,
{
    if s <= MIN_FONT_MILLI || width_at(ref_w, ref_s, s) < avail {
        s
    } else {
        spec_fit_font_size(ref_w, ref_s, spec_shrink_step(s), avail)
    }
}

/// Shrinks a font size by five percent per step until the block, measured
/// `ref_w` wide at size `ref_s`, fits strictly under `available`, or the
/// one-pixel floor is reached. Starting at or under the floor returns the
/// start unchanged; a block that already fits keeps its initial size; a block
/// that does not comes back strictly smaller.
pub fn fit_font_size(ref_w: u64, ref_s: u64, initial: u64, available: u64) -> (s: u64)
    requires
        ref_s >= 1,
    ensures
        s == spec_fit_font_size(ref_w as int, ref_s as int, initial as int, available as int),
        s <= initial,
        s >= MIN_FONT_MILLI || s == initial,
        width_at(ref_w as int, ref_s as int, s as int) < available || s <= MIN_FONT_MILLI,
        (initial > MIN_FONT_MILLI && width_at(ref_w as int, ref_s as int, initial as int)
            >= available) ==> s < initial,
{
    let ghost target = spec_fit_font_size(
        ref_w as int,
        ref_s as int,
        initial as int,
        available as int,
    );
    let mut s = initial;
    if s > MIN_FONT_MILLI && measured_width_ge(ref_w, ref_s, s, available) {
        s = shrink_step(s);
        while s > MIN_FONT_MILLI && measured_width_ge(ref_w, ref_s, s, available)
            invariant
                ref_s >= 1,
                MIN_FONT_MILLI <= s < initial,
                target == spec_fit_font_size(
                    ref_w as int,
                    ref_s as int,
                    s as int,
                    available as int,
                ),
            decreases s,
        {
            s = shrink_step(s);
        }
    }
    s
}

/// The initial title font size: a ninth of the smaller viewport side, in
/// milli-pixels.
pub fn title_font_size(width: u32, height: u32) -> (s: u64)
    ensures
        s == (if width <= height {
            width as int
        } else {
            height as int
        }) * 1000 / 9,
{
    let side = if width <= height {
        width
    } else {
        height
    };
    (side as u64) * 1000 / 9
}

/// The initial artist font size: half the title's.
pub fn artist_font_size(width: u32, height: u32) -> (s: u64)
    ensures
        s == (if width <= height {
            width as int
        } else {
            height as int
        }) * 1000 / 9 / 2,
{
    title_font_size(width, height) / 2
}

/// The font size of the "playing from queue" caption: height over 42.
pub fn playing_from_font_size(height: u32) -> (s: u64)
    ensures
        s == height as int * 1000 / 42,
{
    (height as u64) * 1000 / 42
}

/// The font size of the queue-counter line: height over 31.
pub fn queue_font_size(height: u32) -> (s: u64)
    ensures
        s == height as int * 1000 / 31,
{
    (height as u64) * 1000 / 31
}

/// The font size of the "up next" body line: height over 30.
pub fn up_next_font_size(height: u32) -> (s: u64)
    ensures
        s == height as int * 1000 / 30,
{
    (height as u64) * 1000 / 30
}

/// The font size of the "up next" label: a tenth larger than the body line.
pub fn up_next_label_font_size(height: u32) -> (s: u64)
    ensures
        s == (height as int * 1000 / 30) * 11 / 10,
{
    (height as u64) * 1000 / 30 * 11 / 10
}

/// The font size of the clock labels flanking the bar: three bar heights
/// (the bar is six thousandths of the viewport height).
pub fn bar_label_font_size(height: u32) -> (s: u64)
    ensures
        s == height as int * 6 * 3,
{
    (height as u64) * 6 * 3
}

/// The space available to the title and artist lines: ninety-seven percent
/// of what lies right of the album art, clamped at zero for degenerate
/// viewports.
pub open spec fn spec_title_available(w: u32, h: u32) -> int {
    let d = crate::layout::milli(w) - crate::layout::spec_title_x(w, h);
    (if d >= 0 {
        d
    } else {
        0
    }) * 97 / 100
}

/// The width, in milli-pixels, that a fitted title or artist line must stay
/// strictly under.
pub fn title_available_milli(width: u32, height: u32) -> (a: i64)
    ensures
        a == spec_title_available(width, height),
        0 <= a,
{
    let wm: i64 = (width as i64) * 1000;
    let hm: i64 = (height as i64) * 1000;
    let side_base = if width <= height {
        wm
    } else {
        hm
    };
    let side = side_base / 3;
    let title_x = wm / 16 + side * 11 / 10;
    let d = if wm - title_x >= 0 {
        wm - title_x
    } else {
        0
    };
    proof {
        vstd::arithmetic::div_mod::lemma_div_pos_is_pos(side_base as int, 3);
        vstd::arithmetic::div_mod::lemma_div_pos_is_pos(wm as int, 16);
        vstd::arithmetic::div_mod::lemma_div_pos_is_pos(side as int * 11, 10);
        vstd::arithmetic::div_mod::lemma_div_pos_is_pos(d as int * 97, 100);
        vstd::arithmetic::div_mod::lemma_div_nonincreasing(d as int * 97, 100);
    }
    d * 97 / 100
}

} // verus!
