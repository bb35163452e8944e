use mpd_display::fraction::{fill_fraction, overlay_fraction, up_next_visible, Fraction};
use mpd_display::layout::{layout, ColorRole, Dims, DrawCmd, ImageDims, ImageRole, Metrics, Rect, TextRole};
use mpd_display::model::DisplayState;
use mpd_display::textfit::{
    artist_font_size, bar_label_font_size, fit_font_size, title_font_size, up_next_font_size,
    up_next_label_font_size, MIN_FONT_MILLI,
};

fn metrics() -> Metrics {
    Metrics {
        background: Some(ImageDims { w: 800, h: 450 }),
        watermark: None,
        album_present: true,
        playing_from: Some(Dims { w: 300_000, h: 20_000 }),
        queue_counter: Some(Dims { w: 200_000, h: 25_000 }),
        title: Some(Dims { w: 500_000, h: 90_000 }),
        artist: Some(Dims { w: 400_000, h: 45_000 }),
        elapsed: Dims { w: 40_000, h: 16_200 },
        duration: Dims { w: 42_000, h: 16_200 },
        up_next_label: Dims { w: 100_000, h: 33_000 },
        next_line: Dims { w: 250_000, h: 30_000 },
    }
}

fn state(width: u32, height: u32, elapsed_ms: Option<u64>, duration_ms: Option<u64>) -> DisplayState {
    let mut s = DisplayState::new();
    s.width = width;
    s.height = height;
    s.elapsed_ms = elapsed_ms;
    s.duration_ms = duration_ms;
    s
}

#[test]
fn fill_fraction_clamps_at_full() {
    let f = fill_fraction(Some(200_000), Some(100_000));
    assert_eq!(f, Fraction { num: 100_000, den: 100_000 });
    let f = fill_fraction(Some(100_000), Some(100_000));
    assert_eq!(f, Fraction { num: 100_000, den: 100_000 });
}

#[test]
fn fill_fraction_zero_or_absent_duration_is_zero() {
    assert_eq!(fill_fraction(Some(5_000), Some(0)), Fraction { num: 0, den: 1 });
    assert_eq!(fill_fraction(Some(5_000), None), Fraction { num: 0, den: 1 });
    assert_eq!(fill_fraction(None, Some(100)), Fraction { num: 0, den: 100 });
}

#[test]
fn up_next_threshold_is_exactly_nine_tenths() {
    assert!(up_next_visible(&Fraction { num: 9_000, den: 10_000 }));
    assert!(!up_next_visible(&Fraction { num: 8_999, den: 10_000 }));
    assert!(up_next_visible(&Fraction { num: 10_000, den: 10_000 }));
}

#[test]
fn overlay_fraction_rescales_last_tenth() {
    let f = overlay_fraction(&Fraction { num: 9_500, den: 10_000 });
    assert_eq!(f, Fraction { num: 5_000, den: 10_000 });
    let f = overlay_fraction(&Fraction { num: 10_000, den: 10_000 });
    assert_eq!(f, Fraction { num: 10_000, den: 10_000 });
}

#[test]
fn frame_layout_is_deterministic_and_exact() {
    let s = state(1600, 900, Some(65_000), Some(600_000));
    let cmds = layout(&s, &metrics());
    assert_eq!(cmds.len(), 10);
    assert_eq!(
        cmds[0],
        DrawCmd::Image {
            role: ImageRole::Background,
            rect: Rect { left: 0, top: 0, right: 1_600_000, bottom: 900_000 },
            tint: true,
        }
    );
    assert_eq!(
        cmds[1],
        DrawCmd::Text {
            role: TextRole::PlayingFrom,
            x: 80_000,
            y: 65_000,
            color: ColorRole::TextBackground,
        }
    );
    assert_eq!(
        cmds[2],
        DrawCmd::Text {
            role: TextRole::QueueCounter,
            x: 80_000,
            y: 90_000,
            color: ColorRole::TextBackground,
        }
    );
    assert_eq!(
        cmds[3],
        DrawCmd::Image {
            role: ImageRole::Album,
            rect: Rect { left: 100_000, top: 450_000, right: 400_000, bottom: 750_000 },
            tint: false,
        }
    );
    assert_eq!(
        cmds[4],
        DrawCmd::Text { role: TextRole::Title, x: 430_000, y: 570_000, color: ColorRole::TextForeground }
    );
    assert_eq!(
        cmds[5],
        DrawCmd::Text { role: TextRole::Artist, x: 430_000, y: 675_000, color: ColorRole::TextMidground }
    );
    assert_eq!(
        cmds[6],
        DrawCmd::RoundedRect {
            rect: Rect { left: 120_000, top: 810_000, right: 1_480_000, bottom: 815_400 },
            radius: 2_571,
            color: ColorRole::BarBackground,
        }
    );
    assert_eq!(
        cmds[7],
        DrawCmd::RoundedRect {
            rect: Rect { left: 120_000, top: 810_000, right: 267_333, bottom: 815_400 },
            radius: 2_571,
            color: ColorRole::TextForeground,
        }
    );
    assert_eq!(
        cmds[8],
        DrawCmd::Text { role: TextRole::Elapsed, x: 71_900, y: 804_775, color: ColorRole::TextForeground }
    );
    assert_eq!(
        cmds[9],
        DrawCmd::Text { role: TextRole::Duration, x: 1_488_100, y: 804_775, color: ColorRole::TextForeground }
    );
    // Identical inputs give a bit-identical frame.
    let again = layout(&s, &metrics());
    assert_eq!(cmds, again);
}

#[test]
fn filled_bar_never_exceeds_bar_width() {
    let s = state(1600, 900, Some(700_000), Some(600_000));
    let cmds = layout(&s, &metrics());
    match (&cmds[6], &cmds[7]) {
        (DrawCmd::RoundedRect { rect: back, .. }, DrawCmd::RoundedRect { rect: fill, .. }) => {
            assert_eq!(fill.right, back.right);
        },
        _ => panic!("bar commands missing"),
    }
}

#[test]
fn zero_duration_draws_empty_fill() {
    let s = state(1600, 900, Some(700_000), Some(0));
    let cmds = layout(&s, &metrics());
    match &cmds[7] {
        DrawCmd::RoundedRect { rect: fill, .. } => {
            assert_eq!(fill.left, 120_000);
            assert_eq!(fill.right, 120_000);
        },
        _ => panic!("fill command missing"),
    }
}

#[test]
fn overlay_appears_exactly_at_ninety_percent() {
    let below = layout(&state(1600, 900, Some(8_999), Some(10_000)), &metrics());
    assert_eq!(below.len(), 10);
    assert!(!below.iter().any(|c| matches!(
        c,
        DrawCmd::Text { role: TextRole::UpNextLabel, .. }
    )));
    let at = layout(&state(1600, 900, Some(9_000), Some(10_000)), &metrics());
    assert_eq!(at.len(), 13);
    assert!(at.iter().any(|c| matches!(
        c,
        DrawCmd::Text { role: TextRole::UpNextLabel, .. }
    )));
}

#[test]
fn overlay_geometry_at_ninety_five_percent() {
    // Width 1600 px: the overlay starts at 1,600,000 - 250,000 - 53,333 and
    // its mini bar has slid half way across the remaining span.
    let cmds = layout(&state(1600, 900, Some(9_500), Some(10_000)), &metrics());
    assert_eq!(
        cmds[10],
        DrawCmd::Text {
            role: TextRole::UpNextLabel,
            x: 1_296_667,
            y: 45_000,
            color: ColorRole::TextForeground,
        }
    );
    assert_eq!(
        cmds[11],
        DrawCmd::Text {
            role: TextRole::NextLine,
            x: 1_296_667,
            y: 78_000,
            color: ColorRole::TextForeground,
        }
    );
    match &cmds[12] {
        DrawCmd::RoundedRect { rect, radius, color } => {
            assert_eq!(rect.left, 1_296_667 + (1_600_000 - 1_296_667) / 2);
            assert_eq!(rect.top, 45_000 + 33_000 + 30_000 + 15_000);
            assert_eq!(rect.right, 1_605_000);
            assert_eq!(rect.bottom, rect.top + 5_400);
            assert_eq!(*radius, 2_571);
            assert_eq!(*color, ColorRole::TextForeground);
        },
        _ => panic!("overlay bar missing"),
    }
}

#[test]
fn hover_adds_indicator_and_accent() {
    let mut s = state(1600, 900, Some(65_000), Some(600_000));
    s.bar_hover = true;
    let cmds = layout(&s, &metrics());
    assert_eq!(cmds.len(), 11);
    match &cmds[7] {
        DrawCmd::RoundedRect { color, .. } => assert_eq!(*color, ColorRole::Accent),
        _ => panic!("fill command missing"),
    }
    assert_eq!(
        cmds[10],
        DrawCmd::Circle {
            cx: 267_333,
            cy: 812_700,
            radius: 5_400,
            color: ColorRole::TextForeground,
        }
    );
}

#[test]
fn tall_background_overflows_vertically_centered() {
    // A 450x800 image on a 1600x900 viewport scales by width, overflows the
    // height, and is centered vertically.
    let mut m = metrics();
    m.background = Some(ImageDims { w: 450, h: 800 });
    let cmds = layout(&state(1600, 900, None, None), &m);
    match &cmds[0] {
        DrawCmd::Image { rect, .. } => {
            assert_eq!(rect.left, 0);
            assert_eq!(rect.right, 1_600_000);
            assert_eq!(rect.top, -972_222);
            assert_eq!(rect.bottom, -972_222 + 2_844_445);
        },
        _ => panic!("background missing"),
    }
}

#[test]
fn wide_background_overflows_horizontally_centered() {
    // A 1600x450 image on a 1600x900 viewport scales by height, overflows the
    // width, and is centered horizontally.
    let mut m = metrics();
    m.background = Some(ImageDims { w: 1600, h: 450 });
    let cmds = layout(&state(1600, 900, None, None), &m);
    match &cmds[0] {
        DrawCmd::Image { rect, .. } => {
            assert_eq!(rect.left, -800_000);
            assert_eq!(rect.right, 2_400_000);
            assert_eq!(rect.top, 0);
            assert_eq!(rect.bottom, 900_000);
        },
        _ => panic!("background missing"),
    }
}

#[test]
fn watermark_scales_to_a_ninth_of_the_height() {
    let mut m = metrics();
    m.background = None;
    m.watermark = Some(ImageDims { w: 200, h: 100 });
    let cmds = layout(&state(1600, 900, None, None), &m);
    match &cmds[0] {
        DrawCmd::Image { role, rect, tint } => {
            assert_eq!(*role, ImageRole::Watermark);
            assert!(!tint);
            assert_eq!(rect.left, 80_000);
            assert_eq!(rect.top, 45_000);
            // 200 * 900_000 / 900 = 200_000 wide, 100_000 tall.
            assert_eq!(rect.right, 280_000);
            assert_eq!(rect.bottom, 145_000);
        },
        _ => panic!("watermark missing"),
    }
    // Captions start right of the watermark plus a quarter of its height.
    match &cmds[1] {
        DrawCmd::Text { role, x, .. } => {
            assert_eq!(*role, TextRole::PlayingFrom);
            assert_eq!(*x, 80_000 + 200_000 + 25_000);
        },
        _ => panic!("caption missing"),
    }
}

#[test]
fn shrink_loop_converges_below_available_width() {
    // The block measures ten times the font size: at the initial size 10_000
    // it is 100_000 wide, over the 97_000 available; one five-percent step
    // fits.
    let fitted = fit_font_size(10_000, 1_000, 10_000, 97_000);
    assert_eq!(fitted, 9_500);
    assert!(fitted < 10_000);
    assert!(10_000 * fitted / 1_000 < 97_000);
}

#[test]
fn fitting_block_keeps_its_size() {
    assert_eq!(fit_font_size(9_000, 1_000, 9_000, 97_000), 9_000);
    assert_eq!(fit_font_size(0, 1_000, 10_000, 97_000), 10_000);
}

#[test]
fn shrink_loop_stops_at_the_floor() {
    let fitted = fit_font_size(1_000_000, 1_000, 5_000, 1_000);
    assert_eq!(fitted, MIN_FONT_MILLI);
}

#[test]
fn viewport_derived_font_sizes() {
    assert_eq!(title_font_size(1600, 900), 100_000);
    assert_eq!(artist_font_size(1600, 900), 50_000);
    assert_eq!(bar_label_font_size(900), 16_200);
    assert_eq!(up_next_font_size(900), 30_000);
    assert_eq!(up_next_label_font_size(900), 33_000);
}
