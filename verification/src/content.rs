//! The text content of every block on screen, derived from the current and
//! next song and the queue length. A missing title falls back to the file
//! path, a missing artist to the empty string; with nothing playing the title
//! block reads "Nothing playing".

use vstd::prelude::*;
use vstd::string::{StrSliceExecFns, StringExecFns};
use crate::clock::{dec_digits, push_decimal};
use crate::model::Song;

verus! {

/// The title line: the song's title, else its file path, else the
/// nothing-playing caption.
pub open spec fn spec_title_text(song: Option<Song>) -> Seq<char> {
    match song {
        Some(s) => match s.title {
            Some(t) => t@,
            None => s.file@,
        },
        None => "Nothing playing"@,
    }
}

/// The artist line: the song's artist, else empty.
pub open spec fn spec_artist_text(song: Option<Song>) -> Seq<char> {
    match song {
        Some(s) => match s.artist {
            Some(a) => a@,
            None => Seq::empty(),
        },
        None => Seq::empty(),
    }
}

/// The next-song title inside the overlay: title, else file path, else
/// "Nothing".
pub open spec fn spec_next_title_text(next: Option<Song>) -> Seq<char> {
    match next {
        Some(s) => match s.title {
            Some(t) => t@,
            None => s.file@,
        },
        None => "Nothing"@,
    }
}

/// The overlay's song line: `artist -` and the title joined by one space; a
/// missing artist leaves only the space and the title.
pub open spec fn spec_next_line_text(next: Option<Song>) -> Seq<char> {
    let artist = spec_artist_text(next);
    let prefix = if artist.len() == 0 {
        artist
    } else {
        artist + " -"@
    };
    prefix + " "@ + spec_next_title_text(next)
}

/// The queue-counter line: the queue length in decimal and " tracks left".
pub open spec fn spec_queue_counter_text(queue_len: u32) -> Seq<char> {
    dec_digits(queue_len as nat) + " tracks left"@
}

/// Every text block the display shows, regenerated on the triggers the tick
/// reports.
pub struct DisplayStrings {
    pub title: String,
    pub artist: String,
    pub playing_from: String,
    pub queue_counter: String,
    pub up_next_label: String,
    pub next_line: String,
}

fn title_or_file(song: &Song) -> (r: String)
    ensures
        r@ == match song.title {
            Some(t) => t@,
            None => song.file@,
        },
{
    match &song.title {
        Some(t) => t.clone(),
        None => song.file.clone(),
    }
}

/// Builds the queue-counter line for a queue of `queue_len` tracks.
pub fn queue_counter_text(queue_len: u32) -> (r: String)
    ensures
        r@ == spec_queue_counter_text(queue_len),
{
    let mut out = String::new();
    push_decimal(&mut out, queue_len as u64);
    out.append(" tracks left");
    out
}

/// Derives the content of every text block from the songs on display and the
/// queue length.
pub fn display_strings(current: &Option<Song>, next: &Option<Song>, queue_len: u32) -> (r:
    DisplayStrings)
    ensures
        r.title@ == spec_title_text(*current),
        r.artist@ == spec_artist_text(*current),
        r.playing_from@ == "PLAYING FROM MPD QUEUE"@,
        r.queue_counter@ == spec_queue_counter_text(queue_len),
        r.up_next_label@ == "Up next:"@,
        r.next_line@ == spec_next_line_text(*next),
{
    let title = match current {
        Some(s) => title_or_file(s),
        None => String::from_str("Nothing playing"),
    };
    let artist = match current {
        Some(s) => match &s.artist {
            Some(a) => a.clone(),
            None => String::new(),
        },
        None => String::new(),
    };
    let next_artist = match next {
        Some(s) => match &s.artist {
            Some(a) => a.clone(),
            None => String::new(),
        },
        None => String::new(),
    };
    let next_title = match next {
        Some(s) => title_or_file(s),
        None => String::from_str("Nothing"),
    };
    let mut next_line = String::new();
    if next_artist.as_str().unicode_len() > 0 {
        next_line.append(next_artist.as_str());
        next_line.append(" -");
    }
    next_line.append(" ");
    next_line.append(next_title.as_str());
    proof {
        assert(next_line@ =~= spec_next_line_text(*next));
    }
    DisplayStrings {
        title,
        artist,
        playing_from: String::from_str("PLAYING FROM MPD QUEUE"),
        queue_counter: queue_counter_text(queue_len),
        up_next_label: String::from_str("Up next:"),
        next_line,
    }
}

} // verus!
