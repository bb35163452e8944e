//! The data model: a song, the snapshot polled from the player transport, the
//! owned display state, and the transition set produced by a tick.

use vstd::prelude::*;

verus! {

/// One track as the player reports it. The file path is the stable identity
/// key; title and artist may be absent and fall back to the file name and the
/// empty string when text is derived.
#[derive(Clone)]
pub struct Song {
    pub file: String,
    pub title: Option<String>,
    pub artist: Option<String>,
}

/// Everything one poll of the player transport yields. `song_id` and
/// `next_song_id` are queue-slot ids; a missing current or next song is a
/// valid state (nothing playing / nothing queued), not an error. Elapsed and
/// duration are in milliseconds.
pub struct PlayerSnapshot {
    pub queue_len: u32,
    pub song_id: Option<u32>,
    pub current_song: Option<Song>,
    pub next_song_id: Option<u32>,
    pub next_song: Option<Song>,
    pub elapsed_ms: Option<u64>,
    pub duration_ms: Option<u64>,
}

/// All mutable presentation state, owned exclusively by the frame loop and
/// mutated only by the tick and event handlers. Window dimensions are in
/// pixels. The queue-slot id of the current song is an explicit option:
/// `None` means nothing is playing, never a sentinel number.
pub struct DisplayState {
    pub width: u32,
    pub height: u32,
    pub fullscreen: bool,
    pub cursor_visible: bool,
    pub show_debug: bool,
    pub bar_hover: bool,
    pub current_song: Option<Song>,
    pub current_song_id: Option<u32>,
    pub next_song: Option<Song>,
    pub queue_len: u32,
    pub elapsed_ms: Option<u64>,
    pub duration_ms: Option<u64>,
}

/// What one tick found: whether the poll could be applied at all, whether the
/// current song's queue-slot id changed, and whether the queue length
/// changed.
#[derive(Clone, Copy, PartialEq, Eq, Structural, Debug)]
pub struct TransitionSet {
    pub applied: bool,
    pub song_changed: bool,
    pub queue_changed: bool,
}

impl DisplayState {
    /// The startup state: nothing playing, empty queue, fullscreen, cursor
    /// shown, no hover, no debug overlay, zero-sized window until the shell
    /// reports its geometry.
    pub fn new() -> (s: DisplayState)
        ensures
            s.width == 0,
            s.height == 0,
            s.fullscreen,
            s.cursor_visible,
            !s.show_debug,
            !s.bar_hover,
            s.current_song is None,
            s.current_song_id is None,
            s.next_song is None,
            s.queue_len == 0,
            s.elapsed_ms is None,
            s.duration_ms is None,
    {
        DisplayState {
            width: 0,
            height: 0,
            fullscreen: true,
            cursor_visible: true,
            show_debug: false,
            bar_hover: false,
            current_song: None,
            current_song_id: None,
            next_song: None,
            queue_len: 0,
            elapsed_ms: None,
            duration_ms: None,
        }
    }
}

} // verus!
