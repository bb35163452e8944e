use mpd_display::events::{
    fullscreen_changed, handle_key, handle_mouse_down, handle_mouse_move, handle_resize, Key,
    MouseButton, ShellAction,
};
use mpd_display::model::{DisplayState, PlayerSnapshot, Song};
use mpd_display::tick::{actions, tick};

fn song(file: &str, title: Option<&str>, artist: Option<&str>) -> Song {
    Song {
        file: file.to_string(),
        title: title.map(|s| s.to_string()),
        artist: artist.map(|s| s.to_string()),
    }
}

fn snapshot(song_id: Option<u32>, queue_len: u32) -> PlayerSnapshot {
    PlayerSnapshot {
        queue_len,
        song_id,
        current_song: song_id.map(|_| song("a.flac", Some("A"), Some("Artist"))),
        next_song_id: None,
        next_song: None,
        elapsed_ms: Some(65_000),
        duration_ms: Some(600_000),
    }
}

#[test]
fn new_state_defaults() {
    let s = DisplayState::new();
    assert_eq!(s.width, 0);
    assert_eq!(s.height, 0);
    assert!(s.fullscreen);
    assert!(s.cursor_visible);
    assert!(!s.show_debug);
    assert!(!s.bar_hover);
    assert!(s.current_song.is_none());
    assert!(s.current_song_id.is_none());
    assert!(s.next_song.is_none());
    assert_eq!(s.queue_len, 0);
}

#[test]
fn first_tick_applies_snapshot() {
    let mut s = DisplayState::new();
    let t = tick(&mut s, Some(snapshot(Some(7), 3)));
    assert!(t.applied);
    assert!(t.song_changed);
    assert!(t.queue_changed);
    assert_eq!(s.current_song_id, Some(7));
    assert_eq!(s.queue_len, 3);
    assert_eq!(s.elapsed_ms, Some(65_000));
    assert_eq!(s.duration_ms, Some(600_000));
    assert_eq!(s.current_song.as_ref().unwrap().file, "a.flac");
}

#[test]
fn repeated_identical_ticks_do_not_drift() {
    let mut s = DisplayState::new();
    tick(&mut s, Some(snapshot(Some(7), 3)));
    let after_first = (
        s.width,
        s.height,
        s.queue_len,
        s.current_song_id,
        s.elapsed_ms,
        s.duration_ms,
        s.current_song.as_ref().unwrap().file.clone(),
    );
    for _ in 0..10 {
        let t = tick(&mut s, Some(snapshot(Some(7), 3)));
        assert!(t.applied);
        assert!(!t.song_changed);
        assert!(!t.queue_changed);
    }
    let after_many = (
        s.width,
        s.height,
        s.queue_len,
        s.current_song_id,
        s.elapsed_ms,
        s.duration_ms,
        s.current_song.as_ref().unwrap().file.clone(),
    );
    assert_eq!(after_first, after_many);
}

#[test]
fn unchanged_song_id_never_resolves_art() {
    let mut s = DisplayState::new();
    let mut resolver_calls = 0;
    for i in 0..5 {
        let t = tick(&mut s, Some(snapshot(Some(9), 2)));
        let a = actions(&t);
        assert_eq!(a.resolve_art, t.song_changed);
        if a.resolve_art {
            resolver_calls += 1;
        }
        if i > 0 {
            assert!(!t.song_changed);
        }
    }
    assert_eq!(resolver_calls, 1);
}

#[test]
fn failed_poll_leaves_state_unchanged() {
    let mut s = DisplayState::new();
    tick(&mut s, Some(snapshot(Some(7), 3)));
    let t = tick(&mut s, None);
    assert!(!t.applied);
    assert!(!t.song_changed);
    assert!(!t.queue_changed);
    assert_eq!(s.current_song_id, Some(7));
    assert_eq!(s.queue_len, 3);
}

#[test]
fn vanished_queue_slot_aborts_tick() {
    let mut s = DisplayState::new();
    tick(&mut s, Some(snapshot(Some(7), 3)));
    let mut p = snapshot(Some(8), 4);
    p.current_song = None;
    let t = tick(&mut s, Some(p));
    assert!(!t.applied);
    assert_eq!(s.current_song_id, Some(7));
    assert_eq!(s.queue_len, 3);
}

#[test]
fn nothing_playing_is_a_valid_state() {
    let mut s = DisplayState::new();
    tick(&mut s, Some(snapshot(Some(7), 3)));
    let t = tick(&mut s, Some(snapshot(None, 0)));
    assert!(t.applied);
    assert!(t.song_changed);
    assert!(s.current_song_id.is_none());
    assert!(s.current_song.is_none());
}

#[test]
fn queue_change_alone_regenerates_only_queue_text() {
    let mut s = DisplayState::new();
    tick(&mut s, Some(snapshot(Some(7), 3)));
    let t = tick(&mut s, Some(snapshot(Some(7), 5)));
    assert!(t.applied);
    assert!(!t.song_changed);
    assert!(t.queue_changed);
    let a = actions(&t);
    assert!(!a.resolve_art);
    assert!(!a.regen_all_text);
    assert!(a.regen_queue_text);
}

#[test]
fn key_f_toggles_fullscreen() {
    let mut s = DisplayState::new();
    assert!(s.fullscreen);
    let a = handle_key(&mut s, Key::F);
    assert!(!s.fullscreen);
    assert_eq!(a, ShellAction::ApplyFullscreen { fullscreen: false });
    let a = handle_key(&mut s, Key::F);
    assert!(s.fullscreen);
    assert_eq!(a, ShellAction::ApplyFullscreen { fullscreen: true });
}

#[test]
fn key_c_toggles_cursor() {
    let mut s = DisplayState::new();
    let a = handle_key(&mut s, Key::C);
    assert!(!s.cursor_visible);
    assert_eq!(a, ShellAction::SetCursorVisible { visible: false });
}

#[test]
fn key_d_toggles_debug_overlay() {
    let mut s = DisplayState::new();
    assert_eq!(handle_key(&mut s, Key::D), ShellAction::Ignored);
    assert!(s.show_debug);
}

#[test]
fn space_and_click_toggle_playback() {
    let mut s = DisplayState::new();
    assert_eq!(handle_key(&mut s, Key::Space), ShellAction::TogglePause);
    assert_eq!(handle_mouse_down(MouseButton::Left), ShellAction::TogglePause);
    assert_eq!(handle_mouse_down(MouseButton::Other), ShellAction::Ignored);
}

#[test]
fn escape_exits() {
    let mut s = DisplayState::new();
    assert_eq!(handle_key(&mut s, Key::Escape), ShellAction::Exit);
}

#[test]
fn resize_relays_out_text_but_not_art() {
    let mut s = DisplayState::new();
    let r = handle_resize(&mut s, 1920, 1080);
    assert_eq!(s.width, 1920);
    assert_eq!(s.height, 1080);
    assert!(!r.resolve_art);
    assert!(r.regen_all_text);
    assert!(r.regen_queue_text);
}

#[test]
fn fullscreen_report_is_recorded() {
    let mut s = DisplayState::new();
    fullscreen_changed(&mut s, false);
    assert!(!s.fullscreen);
}

#[test]
fn hover_band_is_four_percent_around_bar_middle() {
    // Height 1000 px: the bar middle is at 897 px, the band is (877, 917) px.
    let mut s = DisplayState::new();
    handle_resize(&mut s, 1000, 1000);
    handle_mouse_move(&mut s, 900_000);
    assert!(s.bar_hover);
    handle_mouse_move(&mut s, 877_000);
    assert!(!s.bar_hover);
    handle_mouse_move(&mut s, 877_001);
    assert!(s.bar_hover);
    handle_mouse_move(&mut s, 916_999);
    assert!(s.bar_hover);
    handle_mouse_move(&mut s, 917_000);
    assert!(!s.bar_hover);
    handle_mouse_move(&mut s, 50_000);
    assert!(!s.bar_hover);
}
