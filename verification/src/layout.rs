//! The frame layout: a pure function from display state, window geometry and
//! measured block sizes to the back-to-front list of draw commands.
//!
//! Every coordinate is an exact integer in milli-pixels. Measured text sizes
//! and image dimensions carry generous upper bounds (`MAX_TEXT_MILLI`,
//! `MAX_IMAGE_DIM`) so that every computed coordinate provably fits the
//! signed 64-bit milli-pixel plane.

use vstd::prelude::*;
use vstd::arithmetic::div_mod::{
    lemma_div_is_ordered, lemma_div_multiples_vanish, lemma_div_multiples_vanish_fancy,
    lemma_div_nonincreasing, lemma_div_pos_is_pos,
};
use vstd::arithmetic::mul::{lemma_mul_inequality, lemma_mul_upper_bound};
use crate::fraction::{
    fill_fraction, overlay_fraction, spec_fill_fraction, spec_overlay_fraction,
    spec_up_next_visible, up_next_visible, Fraction,
};
use crate::model::DisplayState;

verus! {

/// A rectangle in milli-pixels, edges included.
#[derive(Clone, Copy, PartialEq, Eq, Structural, Debug)]
pub struct Rect {
    pub left: i64,
    pub top: i64,
    pub right: i64,
    pub bottom: i64,
}

/// Which image slot a command paints.
#[derive(Clone, Copy, PartialEq, Eq, Structural, Debug)]
pub enum ImageRole {
    Background,
    Watermark,
    Album,
}

/// Which laid-out text block a command paints.
#[derive(Clone, Copy, PartialEq, Eq, Structural, Debug)]
pub enum TextRole {
    PlayingFrom,
    QueueCounter,
    Title,
    Artist,
    Elapsed,
    Duration,
    UpNextLabel,
    NextLine,
}

/// Which palette entry a command paints with; the shell owns the palette.
#[derive(Clone, Copy, PartialEq, Eq, Structural, Debug)]
pub enum ColorRole {
    TextBackground,
    TextForeground,
    TextMidground,
    BackgroundTint,
    Accent,
    BarBackground,
}

/// One abstract paint instruction, consumed back-to-front by the renderer.
#[derive(Clone, Copy, PartialEq, Eq, Structural, Debug)]
pub enum DrawCmd {
    Image { role: ImageRole, rect: Rect, tint: bool },
    Text { role: TextRole, x: i64, y: i64, color: ColorRole },
    RoundedRect { rect: Rect, radius: i64, color: ColorRole },
    Circle { cx: i64, cy: i64, radius: i64, color: ColorRole },
}

/// The measured size of a text block, in milli-pixels.
#[derive(Clone, Copy, PartialEq, Eq, Structural, Debug)]
pub struct Dims {
    pub w: u64,
    pub h: u64,
}

/// The pixel dimensions of a decoded image.
#[derive(Clone, Copy, PartialEq, Eq, Structural, Debug)]
pub struct ImageDims {
    pub w: u32,
    pub h: u32,
}

/// The widest a measured text block may claim to be, in milli-pixels: two to
/// the fiftieth, far beyond any window, and small enough that every derived
/// coordinate fits an `i64`.
pub const MAX_TEXT_MILLI: u64 = 1_125_899_906_842_624;

/// The largest accepted image side, in pixels: far beyond any real texture,
/// and small enough that every scaled edge fits an `i64`.
pub const MAX_IMAGE_DIM: u32 = 1_048_576;

/// Everything the layout needs from the shell's measurements: image
/// dimensions (absent when the slot is empty) and the measured sizes of the
/// text blocks (absent when a block was never laid out; the clock labels and
/// overlay lines are measured every frame and always present).
#[derive(Clone, Copy)]
pub struct Metrics {
    pub background: Option<ImageDims>,
    pub watermark: Option<ImageDims>,
    pub album_present: bool,
    pub playing_from: Option<Dims>,
    pub queue_counter: Option<Dims>,
    pub title: Option<Dims>,
    pub artist: Option<Dims>,
    pub elapsed: Dims,
    pub duration: Dims,
    pub up_next_label: Dims,
    pub next_line: Dims,
}

/// A measured text size within the bound that keeps coordinates in range.
pub open spec fn dims_wf(d: Dims) -> bool {
    d.w <= MAX_TEXT_MILLI && d.h <= MAX_TEXT_MILLI
}

/// Image dimensions that are positive (a decoded image has no zero side) and
/// within the bound that keeps scaled edges in range.
pub open spec fn image_dims_wf(d: ImageDims) -> bool {
    1 <= d.w <= MAX_IMAGE_DIM && 1 <= d.h <= MAX_IMAGE_DIM
}

impl Metrics {
    /// Well-formed measurements: see `dims_wf` and `image_dims_wf`.
    pub open spec fn wf(self) -> bool {
        &&& match self.background {
            Some(d) => image_dims_wf(d),
            None => true,
        }
        &&& match self.watermark {
            Some(d) => image_dims_wf(d),
            None => true,
        }
        &&& match self.playing_from {
            Some(d) => dims_wf(d),
            None => true,
        }
        &&& match self.queue_counter {
            Some(d) => dims_wf(d),
            None => true,
        }
        &&& match self.title {
            Some(d) => dims_wf(d),
            None => true,
        }
        &&& match self.artist {
            Some(d) => dims_wf(d),
            None => true,
        }
        &&& dims_wf(self.elapsed)
        &&& dims_wf(self.duration)
        &&& dims_wf(self.up_next_label)
        &&& dims_wf(self.next_line)
    }
}

/// A pixel count in milli-pixels.
pub open spec fn milli(px: u32) -> int {
    px as int * 1000
}

/// Division rounding up, for scaled image edges.
pub open spec fn ceil_div(x: int, d: int) -> int
    recommends
        d >= 1,
{
    (x + d - 1) / d
}

/// The height of a text block, one pixel when the block is absent.
pub open spec fn text_h_or_default(t: Option<Dims>) -> int {
    match t {
        Some(d) => d.h as int,
        None => 1000,
    }
}

// ---------------------------------------------------------------------------
// Arithmetic helpers: every division and every product of two variables runs
// through one of these, which carry the bounds the coordinate casts need.
// ---------------------------------------------------------------------------

const MAX_COORD: i64 = 4_600_000_000_000_000_000;

fn div_pos(x: i64, d: i64) -> (r: i64)
    requires
        0 <= x,
        1 <= d,
    ensures
        r == x as int / d as int,
        0 <= r <= x,
{
    proof {
        lemma_div_pos_is_pos(x as int, d as int);
        lemma_div_nonincreasing(x as int, d as int);
    }
    x / d
}

fn mul_div_floor(dim: u32, num: i64, den: i64) -> (r: i64)
    requires
        1 <= den,
        0 <= num,
        dim as int * num <= MAX_COORD,
    ensures
        r == dim as int * num / den as int,
        0 <= r <= dim as int * num,
{
    let x = (dim as i128) * (num as i128);
    proof {
        lemma_div_pos_is_pos(x as int, den as int);
        lemma_div_nonincreasing(x as int, den as int);
    }
    (x / (den as i128)) as i64
}

fn mul_div_ceil(dim: u32, num: i64, den: i64) -> (r: i64)
    requires
        1 <= den <= 1_000_000_000,
        0 <= num,
        dim as int * num <= MAX_COORD,
    ensures
        r == ceil_div(dim as int * num, den as int),
        0 <= r <= dim as int * num,
{
    let x = (dim as i128) * (num as i128);
    proof {
        let xi = x as int;
        let di = den as int;
        lemma_div_pos_is_pos(xi + di - 1, di);
        lemma_mul_inequality(1, di, xi);
        lemma_div_is_ordered(xi + di - 1, xi * di + di - 1, di);
        lemma_div_multiples_vanish_fancy(xi, di - 1, di);
        assert(di * xi == xi * di) by (nonlinear_arith);
    }
    ((x + (den as i128) - 1) / (den as i128)) as i64
}

fn scale_len(len: i64, num: u64, den: u64) -> (r: i64)
    requires
        0 <= len <= MAX_COORD,
        1 <= den,
        num <= den,
    ensures
        r == len as int * num as int / den as int,
        0 <= r <= len,
{
    proof {
        let li = len as int;
        let ni = num as int;
        let di = den as int;
        lemma_mul_upper_bound(li, MAX_COORD as int, ni, u64::MAX as int);
        vstd::arithmetic::mul::lemma_mul_nonnegative(li, ni);
        lemma_div_pos_is_pos(li * ni, di);
        lemma_mul_inequality(ni, di, li);
        vstd::arithmetic::mul::lemma_mul_is_commutative(ni, li);
        vstd::arithmetic::mul::lemma_mul_is_commutative(di, li);
        lemma_div_is_ordered(li * ni, li * di, di);
        vstd::arithmetic::mul::lemma_mul_is_commutative(li, di);
        lemma_div_multiples_vanish(li, di);
    }
    let p = (len as i128) * (num as i128);
    (p / (den as i128)) as i64
}

// ---------------------------------------------------------------------------
// The geometry, one spec function per quantity, mirroring the painted frame.
// ---------------------------------------------------------------------------

/// The background image covers the viewport (aspect-fill): the larger of the
/// two axis scales wins, the image is centered on the overfull axis, and the
/// scaled edges round up.
pub open spec fn spec_bg_rect(w: u32, h: u32, d: ImageDims) -> Rect {
    let wm = milli(w);
    let hm = milli(h);
    let iw = d.w as int;
    let ih = d.h as int;
    if ih * wm < hm * iw {
        let left = -((iw * hm / ih - wm) / 2);
        Rect {
            left: left as i64,
            top: 0,
            right: (left + ceil_div(iw * hm, ih)) as i64,
            bottom: ceil_div(ih * hm, ih) as i64,
        }
    } else {
        let top = -((ih * wm / iw - hm) / 2);
        Rect {
            left: 0,
            top: top as i64,
            right: ceil_div(iw * wm, iw) as i64,
            bottom: (top + ceil_div(ih * wm, iw)) as i64,
        }
    }
}

pub open spec fn spec_background_cmds(w: u32, h: u32, bg: Option<ImageDims>) -> Seq<DrawCmd> {
    match bg {
        None => seq![],
        Some(d) => seq![
            DrawCmd::Image { role: ImageRole::Background, rect: spec_bg_rect(w, h, d), tint: true },
        ],
    }
}

/// The watermark sits at a twentieth of the viewport from the top-left,
/// scaled so its height is a ninth of the viewport height.
pub open spec fn spec_watermark_rect(w: u32, h: u32, d: ImageDims) -> Rect {
    let left = milli(w) / 20;
    let top = milli(h) / 20;
    Rect {
        left: left as i64,
        top: top as i64,
        right: (left + ceil_div(d.w as int * milli(h), 9 * d.h as int)) as i64,
        bottom: (top + ceil_div(d.h as int * milli(h), 9 * d.h as int)) as i64,
    }
}

/// The scaled watermark size; zero when there is no watermark.
pub open spec fn spec_watermark_size(h: u32, wm: Option<ImageDims>) -> (int, int) {
    match wm {
        None => (0, 0),
        Some(d) => (
            ceil_div(d.w as int * milli(h), 9 * d.h as int),
            ceil_div(d.h as int * milli(h), 9 * d.h as int),
        ),
    }
}

pub open spec fn spec_watermark_cmds(w: u32, h: u32, wm: Option<ImageDims>) -> Seq<DrawCmd> {
    match wm {
        None => seq![],
        Some(d) => seq![
            DrawCmd::Image {
                role: ImageRole::Watermark,
                rect: spec_watermark_rect(w, h, d),
                tint: false,
            },
        ],
    }
}

/// The captions right of the watermark start after its width plus a quarter
/// of its height.
pub open spec fn spec_caption_x(w: u32, h: u32, wm: Option<ImageDims>) -> int {
    milli(w) / 20 + spec_watermark_size(h, wm).0 + spec_watermark_size(h, wm).1 / 4
}

/// The baseline of the "playing from queue" caption.
pub open spec fn spec_caption_y(h: u32, pf: Option<Dims>) -> int {
    milli(h) / 20 + text_h_or_default(pf)
}

pub open spec fn spec_playing_from_cmds(
    w: u32,
    h: u32,
    wm: Option<ImageDims>,
    pf: Option<Dims>,
) -> Seq<DrawCmd> {
    match pf {
        None => seq![],
        Some(d) => seq![
            DrawCmd::Text {
                role: TextRole::PlayingFrom,
                x: spec_caption_x(w, h, wm) as i64,
                y: spec_caption_y(h, pf) as i64,
                color: ColorRole::TextBackground,
            },
        ],
    }
}

pub open spec fn spec_queue_cmds(
    w: u32,
    h: u32,
    wm: Option<ImageDims>,
    pf: Option<Dims>,
    q: Option<Dims>,
) -> Seq<DrawCmd> {
    match q {
        None => seq![],
        Some(d) => seq![
            DrawCmd::Text {
                role: TextRole::QueueCounter,
                x: spec_caption_x(w, h, wm) as i64,
                y: (spec_caption_y(h, pf) + d.h as int) as i64,
                color: ColorRole::TextBackground,
            },
        ],
    }
}

/// The album art is a square of a third of the smaller viewport side.
pub open spec fn spec_album_side(w: u32, h: u32) -> int {
    (if w <= h {
        milli(w)
    } else {
        milli(h)
    }) / 3
}

pub open spec fn spec_album_x(w: u32) -> int {
    milli(w) / 16
}

pub open spec fn spec_album_y(w: u32, h: u32) -> int {
    milli(h) * 5 / 6 - spec_album_side(w, h)
}

pub open spec fn spec_album_rect(w: u32, h: u32) -> Rect {
    Rect {
        left: spec_album_x(w) as i64,
        top: spec_album_y(w, h) as i64,
        right: (spec_album_x(w) + spec_album_side(w, h)) as i64,
        bottom: (spec_album_y(w, h) + spec_album_side(w, h)) as i64,
    }
}

pub open spec fn spec_album_cmds(w: u32, h: u32, present: bool) -> Seq<DrawCmd> {
    if present {
        seq![DrawCmd::Image { role: ImageRole::Album, rect: spec_album_rect(w, h), tint: false }]
    } else {
        seq![]
    }
}

/// Title and artist stack right of the album square.
pub open spec fn spec_title_x(w: u32, h: u32) -> int {
    spec_album_x(w) + spec_album_side(w, h) * 11 / 10
}

pub open spec fn spec_title_y(w: u32, h: u32) -> int {
    spec_album_y(w, h) + spec_album_side(w, h) * 2 / 5
}

pub open spec fn spec_title_cmds(w: u32, h: u32, title: Option<Dims>) -> Seq<DrawCmd> {
    match title {
        None => seq![],
        Some(d) => seq![
            DrawCmd::Text {
                role: TextRole::Title,
                x: spec_title_x(w, h) as i64,
                y: spec_title_y(w, h) as i64,
                color: ColorRole::TextForeground,
            },
        ],
    }
}

pub open spec fn spec_artist_y(w: u32, h: u32, title: Option<Dims>) -> int {
    spec_title_y(w, h) + text_h_or_default(title) + spec_album_side(w, h) / 20
}

pub open spec fn spec_artist_cmds(
    w: u32,
    h: u32,
    title: Option<Dims>,
    artist: Option<Dims>,
) -> Seq<DrawCmd> {
    match artist {
        None => seq![],
        Some(d) => seq![
            DrawCmd::Text {
                role: TextRole::Artist,
                x: spec_title_x(w, h) as i64,
                y: spec_artist_y(w, h, title) as i64,
                color: ColorRole::TextMidground,
            },
        ],
    }
}

/// The progress bar spans 85 percent of the viewport width, centered, six
/// thousandths of the height tall, at nine tenths of the height.
pub open spec fn spec_bar_width(w: u32) -> int {
    milli(w) * 85 / 100
}

pub open spec fn spec_bar_x(w: u32) -> int {
    (milli(w) - spec_bar_width(w)) / 2
}

pub open spec fn spec_bar_height(h: u32) -> int {
    h as int * 6
}

pub open spec fn spec_bar_y(h: u32) -> int {
    milli(h) * 9 / 10
}

/// The rounding radius of the bar's corners: its height divided by 2.1.
pub open spec fn spec_bar_radius(h: u32) -> int {
    spec_bar_height(h) * 10 / 21
}

/// The filled length of the bar: its width scaled by the fill fraction.
pub open spec fn spec_fill_len(w: u32, f: Fraction) -> int {
    spec_bar_width(w) * f.num as int / f.den as int
}

pub open spec fn spec_bar_cmds(w: u32, h: u32, f: Fraction, hover: bool) -> Seq<DrawCmd> {
    seq![
        DrawCmd::RoundedRect {
            rect: Rect {
                left: spec_bar_x(w) as i64,
                top: spec_bar_y(h) as i64,
                right: (spec_bar_x(w) + spec_bar_width(w)) as i64,
                bottom: (spec_bar_y(h) + spec_bar_height(h)) as i64,
            },
            radius: spec_bar_radius(h) as i64,
            color: ColorRole::BarBackground,
        },
        DrawCmd::RoundedRect {
            rect: Rect {
                left: spec_bar_x(w) as i64,
                top: spec_bar_y(h) as i64,
                right: (spec_bar_x(w) + spec_fill_len(w, f)) as i64,
                bottom: (spec_bar_y(h) + spec_bar_height(h)) as i64,
            },
            radius: spec_bar_radius(h) as i64,
            color: if hover {
                ColorRole::Accent
            } else {
                ColorRole::TextForeground
            },
        },
    ]
}

/// The clock labels sit level with the bar, elapsed to its left and duration
/// to its right, raised by ten thirty-firsts of the label height.
pub open spec fn spec_label_y(h: u32, elapsed: Dims) -> int {
    spec_bar_y(h) - elapsed.h as int * 10 / 31
}

pub open spec fn spec_label_cmds(w: u32, h: u32, elapsed: Dims) -> Seq<DrawCmd> {
    seq![
        DrawCmd::Text {
            role: TextRole::Elapsed,
            x: (spec_bar_x(w) - elapsed.w as int - spec_bar_height(h) * 3 / 2) as i64,
            y: spec_label_y(h, elapsed) as i64,
            color: ColorRole::TextForeground,
        },
        DrawCmd::Text {
            role: TextRole::Duration,
            x: (spec_bar_x(w) + spec_bar_width(w) + spec_bar_height(h) * 3 / 2) as i64,
            y: spec_label_y(h, elapsed) as i64,
            color: ColorRole::TextForeground,
        },
    ]
}

pub open spec fn spec_hover_cmds(w: u32, h: u32, f: Fraction, hover: bool) -> Seq<DrawCmd> {
    if hover {
        seq![
            DrawCmd::Circle {
                cx: (spec_bar_x(w) + spec_fill_len(w, f)) as i64,
                cy: (spec_bar_y(h) + spec_bar_height(h) / 2) as i64,
                radius: spec_bar_height(h) as i64,
                color: ColorRole::TextForeground,
            },
        ]
    } else {
        seq![]
    }
}

/// Where the "up next" overlay starts: right-aligned to its wider line, a
/// thirtieth of the width in from the right edge.
pub open spec fn spec_overlay_x(w: u32, label: Dims, line: Dims) -> int {
    milli(w) - (if label.w >= line.w {
        label.w as int
    } else {
        line.w as int
    }) - milli(w) / 30
}

/// The overlay's mini bar slides in from the right as the last tenth of
/// playback passes: its left edge moves from the overlay's left edge to the
/// viewport's right.
pub open spec fn spec_overlay_cmds(
    w: u32,
    h: u32,
    f: Fraction,
    label: Dims,
    line: Dims,
) -> Seq<DrawCmd> {
    if spec_up_next_visible(f) {
        let next_y = milli(h) / 20;
        let next_x = spec_overlay_x(w, label, line);
        let of = spec_overlay_fraction(f);
        let off = (milli(w) - next_x) * of.num as int / of.den as int;
        let bar_y = next_y + label.h as int + line.h as int + (milli(h) / 30) / 2;
        seq![
            DrawCmd::Text {
                role: TextRole::UpNextLabel,
                x: next_x as i64,
                y: next_y as i64,
                color: ColorRole::TextForeground,
            },
            DrawCmd::Text {
                role: TextRole::NextLine,
                x: next_x as i64,
                y: (next_y + label.h as int) as i64,
                color: ColorRole::TextForeground,
            },
            DrawCmd::RoundedRect {
                rect: Rect {
                    left: (next_x + off) as i64,
                    top: bar_y as i64,
                    right: (milli(w) + 5000) as i64,
                    bottom: (bar_y + spec_bar_height(h)) as i64,
                },
                radius: spec_bar_radius(h) as i64,
                color: ColorRole::TextForeground,
            },
        ]
    } else {
        seq![]
    }
}

/// The whole frame, back to front: background, watermark, captions, album
/// art, title and artist, the progress bar and its fill, the clock labels,
/// the hover indicator, and the "up next" overlay.
pub open spec fn spec_layout(s: DisplayState, m: Metrics) -> Seq<DrawCmd> {
    let f = spec_fill_fraction(s.elapsed_ms, s.duration_ms);
    spec_background_cmds(s.width, s.height, m.background) + spec_watermark_cmds(
        s.width,
        s.height,
        m.watermark,
    ) + spec_playing_from_cmds(s.width, s.height, m.watermark, m.playing_from) + spec_queue_cmds(
        s.width,
        s.height,
        m.watermark,
        m.playing_from,
        m.queue_counter,
    ) + spec_album_cmds(s.width, s.height, m.album_present) + spec_title_cmds(
        s.width,
        s.height,
        m.title,
    ) + spec_artist_cmds(s.width, s.height, m.title, m.artist) + spec_bar_cmds(
        s.width,
        s.height,
        f,
        s.bar_hover,
    ) + spec_label_cmds(s.width, s.height, m.elapsed) + spec_hover_cmds(
        s.width,
        s.height,
        f,
        s.bar_hover,
    ) + spec_overlay_cmds(s.width, s.height, f, m.up_next_label, m.next_line)
}

// ---------------------------------------------------------------------------
// The executable layout.
// ---------------------------------------------------------------------------

fn background_rect(w: u32, h: u32, d: ImageDims) -> (r: Rect)
    requires
        image_dims_wf(d),
    ensures
        r == spec_bg_rect(w, h, d),
{
    let wm: i64 = (w as i64) * 1000;
    let hm: i64 = (h as i64) * 1000;
    proof {
        lemma_mul_upper_bound(d.w as int, MAX_IMAGE_DIM as int, hm as int, 4_294_967_295_000);
        lemma_mul_upper_bound(d.h as int, MAX_IMAGE_DIM as int, hm as int, 4_294_967_295_000);
        lemma_mul_upper_bound(d.w as int, MAX_IMAGE_DIM as int, wm as int, 4_294_967_295_000);
        lemma_mul_upper_bound(d.h as int, MAX_IMAGE_DIM as int, wm as int, 4_294_967_295_000);
    }
    if (d.h as i128) * (wm as i128) < (hm as i128) * (d.w as i128) {
        let scaled_w = mul_div_floor(d.w, hm, d.h as i64);
        proof {
            lemma_div_is_ordered(d.h as int * wm as int, hm as int * d.w as int, d.h as int);
            vstd::arithmetic::mul::lemma_mul_is_commutative(d.h as int, wm as int);
            lemma_div_multiples_vanish(wm as int, d.h as int);
            vstd::arithmetic::mul::lemma_mul_is_commutative(hm as int, d.w as int);
        }
        let diff = scaled_w - wm;
        let left = -div_pos(diff, 2);
        let cw = mul_div_ceil(d.w, hm, d.h as i64);
        let ch = mul_div_ceil(d.h, hm, d.h as i64);
        Rect { left, top: 0, right: left + cw, bottom: ch }
    } else {
        let scaled_h = mul_div_floor(d.h, wm, d.w as i64);
        proof {
            lemma_div_is_ordered(hm as int * d.w as int, d.h as int * wm as int, d.w as int);
            vstd::arithmetic::mul::lemma_mul_is_commutative(hm as int, d.w as int);
            lemma_div_multiples_vanish(hm as int, d.w as int);
            vstd::arithmetic::mul::lemma_mul_is_commutative(d.h as int, wm as int);
        }
        let diff = scaled_h - hm;
        let top = -div_pos(diff, 2);
        let cw = mul_div_ceil(d.w, wm, d.w as i64);
        let ch = mul_div_ceil(d.h, wm, d.w as i64);
        Rect { left: 0, top, right: cw, bottom: top + ch }
    }
}

fn watermark_size(h: u32, d: ImageDims) -> (r: (i64, i64))
    requires
        image_dims_wf(d),
    ensures
        r.0 == spec_watermark_size(h, Some(d)).0,
        r.1 == spec_watermark_size(h, Some(d)).1,
        0 <= r.0 <= MAX_COORD,
        0 <= r.1 <= MAX_COORD,
{
    let hm: i64 = (h as i64) * 1000;
    proof {
        lemma_mul_upper_bound(d.w as int, MAX_IMAGE_DIM as int, hm as int, 4_294_967_295_000);
        lemma_mul_upper_bound(d.h as int, MAX_IMAGE_DIM as int, hm as int, 4_294_967_295_000);
    }
    let den = 9 * (d.h as i64);
    (mul_div_ceil(d.w, hm, den), mul_div_ceil(d.h, hm, den))
}

fn push_background(cmds: &mut Vec<DrawCmd>, w: u32, h: u32, bg: &Option<ImageDims>)
    requires
        match *bg {
            Some(d) => image_dims_wf(d),
            None => true,
        },
    ensures
        final(cmds)@ == old(cmds)@ + spec_background_cmds(w, h, *bg),
{
    match bg {
        None => {},
        Some(d) => {
            let rect = background_rect(w, h, *d);
            cmds.push(DrawCmd::Image { role: ImageRole::Background, rect, tint: true });
        },
    }
    proof {
        assert(cmds@ =~= old(cmds)@ + spec_background_cmds(w, h, *bg));
    }
}

fn push_watermark(cmds: &mut Vec<DrawCmd>, w: u32, h: u32, wmk: &Option<ImageDims>) -> (size: (
    i64,
    i64,
))
    requires
        match *wmk {
            Some(d) => image_dims_wf(d),
            None => true,
        },
    ensures
        final(cmds)@ == old(cmds)@ + spec_watermark_cmds(w, h, *wmk),
        size.0 == spec_watermark_size(h, *wmk).0,
        size.1 == spec_watermark_size(h, *wmk).1,
        0 <= size.0 <= MAX_COORD,
        0 <= size.1 <= MAX_COORD,
{
    let wm: i64 = (w as i64) * 1000;
    let hm: i64 = (h as i64) * 1000;
    let size = match wmk {
        None => (0i64, 0i64),
        Some(d) => {
            let size = watermark_size(h, *d);
            let left = div_pos(wm, 20);
            let top = div_pos(hm, 20);
            cmds.push(
                DrawCmd::Image {
                    role: ImageRole::Watermark,
                    rect: Rect { left, top, right: left + size.0, bottom: top + size.1 },
                    tint: false,
                },
            );
            size
        },
    };
    proof {
        assert(cmds@ =~= old(cmds)@ + spec_watermark_cmds(w, h, *wmk));
    }
    size
}

fn push_captions(
    cmds: &mut Vec<DrawCmd>,
    w: u32,
    h: u32,
    wm_w: i64,
    wm_h: i64,
    pf: &Option<Dims>,
    q: &Option<Dims>,
    ghost_wmk: Ghost<Option<ImageDims>>,
)
    requires
        wm_w == spec_watermark_size(h, ghost_wmk@).0,
        wm_h == spec_watermark_size(h, ghost_wmk@).1,
        0 <= wm_w <= MAX_COORD,
        0 <= wm_h <= MAX_COORD,
        match *pf {
            Some(d) => dims_wf(d),
            None => true,
        },
        match *q {
            Some(d) => dims_wf(d),
            None => true,
        },
    ensures
        final(cmds)@ == old(cmds)@ + spec_playing_from_cmds(w, h, ghost_wmk@, *pf) + spec_queue_cmds(
            w,
            h,
            ghost_wmk@,
            *pf,
            *q,
        ),
{
    let wm: i64 = (w as i64) * 1000;
    let hm: i64 = (h as i64) * 1000;
    let caption_x = div_pos(wm, 20) + wm_w + div_pos(wm_h, 4);
    let pf_h: i64 = match pf {
        Some(d) => d.h as i64,
        None => 1000,
    };
    let caption_y = div_pos(hm, 20) + pf_h;
    match pf {
        None => {},
        Some(_d) => {
            cmds.push(
                DrawCmd::Text {
                    role: TextRole::PlayingFrom,
                    x: caption_x,
                    y: caption_y,
                    color: ColorRole::TextBackground,
                },
            );
        },
    }
    match q {
        None => {},
        Some(d) => {
            cmds.push(
                DrawCmd::Text {
                    role: TextRole::QueueCounter,
                    x: caption_x,
                    y: caption_y + d.h as i64,
                    color: ColorRole::TextBackground,
                },
            );
        },
    }
    proof {
        assert(cmds@ =~= old(cmds)@ + spec_playing_from_cmds(w, h, ghost_wmk@, *pf)
            + spec_queue_cmds(w, h, ghost_wmk@, *pf, *q));
    }
}

fn push_center(
    cmds: &mut Vec<DrawCmd>,
    w: u32,
    h: u32,
    album_present: bool,
    title: &Option<Dims>,
    artist: &Option<Dims>,
)
    requires
        match *title {
            Some(d) => dims_wf(d),
            None => true,
        },
        match *artist {
            Some(d) => dims_wf(d),
            None => true,
        },
    ensures
        final(cmds)@ == old(cmds)@ + spec_album_cmds(w, h, album_present) + spec_title_cmds(w, h, *title)
            + spec_artist_cmds(w, h, *title, *artist),
{
    let wm: i64 = (w as i64) * 1000;
    let hm: i64 = (h as i64) * 1000;
    let side = div_pos(if w <= h { wm } else { hm }, 3);
    let album_x = div_pos(wm, 16);
    let album_y = div_pos(hm * 5, 6) - side;
    if album_present {
        cmds.push(
            DrawCmd::Image {
                role: ImageRole::Album,
                rect: Rect {
                    left: album_x,
                    top: album_y,
                    right: album_x + side,
                    bottom: album_y + side,
                },
                tint: false,
            },
        );
    }
    let title_x = album_x + div_pos(side * 11, 10);
    let title_y = album_y + div_pos(side * 2, 5);
    match title {
        None => {},
        Some(_d) => {
            cmds.push(
                DrawCmd::Text {
                    role: TextRole::Title,
                    x: title_x,
                    y: title_y,
                    color: ColorRole::TextForeground,
                },
            );
        },
    }
    let title_h: i64 = match title {
        Some(d) => d.h as i64,
        None => 1000,
    };
    let artist_y = title_y + title_h + div_pos(side, 20);
    match artist {
        None => {},
        Some(_d) => {
            cmds.push(
                DrawCmd::Text {
                    role: TextRole::Artist,
                    x: title_x,
                    y: artist_y,
                    color: ColorRole::TextMidground,
                },
            );
        },
    }
    proof {
        assert(cmds@ =~= old(cmds)@ + spec_album_cmds(w, h, album_present) + spec_title_cmds(
            w,
            h,
            *title,
        ) + spec_artist_cmds(w, h, *title, *artist));
    }
}

fn push_bar(cmds: &mut Vec<DrawCmd>, w: u32, h: u32, f: &Fraction, hover: bool, elapsed: Dims)
    requires
        f.wf(),
        dims_wf(elapsed),
    ensures
        final(cmds)@ == old(cmds)@ + spec_bar_cmds(w, h, *f, hover) + spec_label_cmds(w, h, elapsed)
            + spec_hover_cmds(w, h, *f, hover),
{
    let wm: i64 = (w as i64) * 1000;
    let hm: i64 = (h as i64) * 1000;
    let bar_w = div_pos(wm * 85, 100);
    let bar_x = div_pos(wm - bar_w, 2);
    let bar_h = (h as i64) * 6;
    let bar_y = div_pos(hm * 9, 10);
    let radius = div_pos(bar_h * 10, 21);
    let fill = scale_len(bar_w, f.num, f.den);
    let fill_color = if hover {
        ColorRole::Accent
    } else {
        ColorRole::TextForeground
    };
    cmds.push(
        DrawCmd::RoundedRect {
            rect: Rect { left: bar_x, top: bar_y, right: bar_x + bar_w, bottom: bar_y + bar_h },
            radius,
            color: ColorRole::BarBackground,
        },
    );
    cmds.push(
        DrawCmd::RoundedRect {
            rect: Rect { left: bar_x, top: bar_y, right: bar_x + fill, bottom: bar_y + bar_h },
            radius,
            color: fill_color,
        },
    );
    let label_y = bar_y - div_pos(elapsed.h as i64 * 10, 31);
    let label_margin = div_pos(bar_h * 3, 2);
    cmds.push(
        DrawCmd::Text {
            role: TextRole::Elapsed,
            x: bar_x - elapsed.w as i64 - label_margin,
            y: label_y,
            color: ColorRole::TextForeground,
        },
    );
    cmds.push(
        DrawCmd::Text {
            role: TextRole::Duration,
            x: bar_x + bar_w + label_margin,
            y: label_y,
            color: ColorRole::TextForeground,
        },
    );
    if hover {
        cmds.push(
            DrawCmd::Circle {
                cx: bar_x + fill,
                cy: bar_y + div_pos(bar_h, 2),
                radius: bar_h,
                color: ColorRole::TextForeground,
            },
        );
    }
    proof {
        assert(cmds@ =~= old(cmds)@ + spec_bar_cmds(w, h, *f, hover) + spec_label_cmds(
            w,
            h,
            elapsed,
        ) + spec_hover_cmds(w, h, *f, hover));
    }
}

fn push_overlay(cmds: &mut Vec<DrawCmd>, w: u32, h: u32, f: &Fraction, label: Dims, line: Dims)
    requires
        f.wf(),
        dims_wf(label),
        dims_wf(line),
    ensures
        final(cmds)@ == old(cmds)@ + spec_overlay_cmds(w, h, *f, label, line),
{
    let wm: i64 = (w as i64) * 1000;
    let hm: i64 = (h as i64) * 1000;
    if up_next_visible(f) {
        let bar_h = (h as i64) * 6;
        let radius = div_pos(bar_h * 10, 21);
        let next_y = div_pos(hm, 20);
        let maxw: i64 = if label.w >= line.w {
            label.w as i64
        } else {
            line.w as i64
        };
        let next_x = wm - maxw - div_pos(wm, 30);
        let of = overlay_fraction(f);
        let off = scale_len(wm - next_x, of.num, of.den);
        let overlay_bar_y = next_y + label.h as i64 + line.h as i64 + div_pos(div_pos(hm, 30), 2);
        cmds.push(
            DrawCmd::Text {
                role: TextRole::UpNextLabel,
                x: next_x,
                y: next_y,
                color: ColorRole::TextForeground,
            },
        );
        cmds.push(
            DrawCmd::Text {
                role: TextRole::NextLine,
                x: next_x,
                y: next_y + label.h as i64,
                color: ColorRole::TextForeground,
            },
        );
        cmds.push(
            DrawCmd::RoundedRect {
                rect: Rect {
                    left: next_x + off,
                    top: overlay_bar_y,
                    right: wm + 5000,
                    bottom: overlay_bar_y + bar_h,
                },
                radius,
                color: ColorRole::TextForeground,
            },
        );
    }
    proof {
        assert(cmds@ =~= old(cmds)@ + spec_overlay_cmds(w, h, *f, label, line));
    }
}

/// Lays the whole frame out: a pure function of the state, its geometry and
/// the shell's measurements, yielding the draw commands back to front.
pub fn layout(state: &DisplayState, metrics: &Metrics) -> (cmds: Vec<DrawCmd>)
    requires
        metrics.wf(),
    ensures
        cmds@ == spec_layout(*state, *metrics),
{
    let w = state.width;
    let h = state.height;
    let mut cmds: Vec<DrawCmd> = Vec::new();
    push_background(&mut cmds, w, h, &metrics.background);
    let (wm_w, wm_h) = push_watermark(&mut cmds, w, h, &metrics.watermark);
    push_captions(
        &mut cmds,
        w,
        h,
        wm_w,
        wm_h,
        &metrics.playing_from,
        &metrics.queue_counter,
        Ghost(metrics.watermark),
    );
    push_center(&mut cmds, w, h, metrics.album_present, &metrics.title, &metrics.artist);
    let f = fill_fraction(state.elapsed_ms, state.duration_ms);
    push_bar(&mut cmds, w, h, &f, state.bar_hover, metrics.elapsed);
    push_overlay(&mut cmds, w, h, &f, metrics.up_next_label, metrics.next_line);
    proof {
        assert(cmds@ =~= spec_layout(*state, *metrics));
    }
    cmds
}

/// The filled bar never exceeds the bar: for any well-formed fraction the
/// fill length lies between zero and the bar width.
pub proof fn lemma_fill_len_within_bar(w: u32, f: Fraction)
    requires
        f.wf(),
    ensures
        0 <= spec_fill_len(w, f) <= spec_bar_width(w),
{
    let bw = spec_bar_width(w);
    let ni = f.num as int;
    let di = f.den as int;
    lemma_div_pos_is_pos(milli(w) * 85, 100);
    vstd::arithmetic::mul::lemma_mul_nonnegative(bw, ni);
    lemma_div_pos_is_pos(bw * ni, di);
    lemma_mul_inequality(ni, di, bw);
    vstd::arithmetic::mul::lemma_mul_is_commutative(ni, bw);
    vstd::arithmetic::mul::lemma_mul_is_commutative(di, bw);
    lemma_div_is_ordered(bw * ni, bw * di, di);
    vstd::arithmetic::mul::lemma_mul_is_commutative(bw, di);
    lemma_div_multiples_vanish(bw, di);
}

/// The frame contains the "up next" overlay exactly when the playback
/// fraction has reached nine tenths.
pub proof fn lemma_overlay_at_threshold(w: u32, h: u32, f: Fraction, label: Dims, line: Dims)
    ensures
        spec_overlay_cmds(w, h, f, label, line).len() != 0 <==> 10 * (f.num as int) >= 9 * (
        f.den as int),
{
}

} // verus!
