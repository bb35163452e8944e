//! The per-tick synchronization of the display state against a polled player
//! snapshot, and the trigger policy that decides what is regenerated.
//!
//! A failed poll (`None`), or a snapshot whose referenced queue slot no longer
//! exists, aborts the tick without touching the state: the previous frame is
//! re-rendered unchanged. A successful tick refreshes the player-derived
//! fields wholesale and reports which transitions occurred.

use vstd::prelude::*;
use crate::model::{DisplayState, PlayerSnapshot, TransitionSet};

verus! {

/// A snapshot is consistent when the queue slot it claims is playing could
/// actually be fetched: a slot id with no song means the slot vanished
/// between the status query and the song query.
pub open spec fn snapshot_consistent(p: PlayerSnapshot) -> bool {
    p.song_id is Some ==> p.current_song is Some
}

/// The state after one tick: unchanged on a failed poll or an inconsistent
/// snapshot, otherwise the player-derived fields are replaced wholesale (the
/// song triple atomically with them).
pub open spec fn tick_state(s: DisplayState, poll: Option<PlayerSnapshot>) -> DisplayState {
    match poll {
        None => s,
        Some(p) => if snapshot_consistent(p) {
            DisplayState {
                current_song: p.current_song,
                current_song_id: p.song_id,
                next_song: p.next_song,
                queue_len: p.queue_len,
                elapsed_ms: p.elapsed_ms,
                duration_ms: p.duration_ms,
                ..s
            }
        } else {
            s
        },
    }
}

/// The transitions one tick reports: applied iff the snapshot was usable,
/// song changed iff the queue-slot id differs from the one on display, queue
/// changed iff the queue length differs.
pub open spec fn tick_transitions(s: DisplayState, poll: Option<PlayerSnapshot>) -> TransitionSet {
    match poll {
        None => TransitionSet { applied: false, song_changed: false, queue_changed: false },
        Some(p) => if snapshot_consistent(p) {
            TransitionSet {
                applied: true,
                song_changed: p.song_id != s.current_song_id,
                queue_changed: p.queue_len != s.queue_len,
            }
        } else {
            TransitionSet { applied: false, song_changed: false, queue_changed: false }
        },
    }
}

fn option_u32_eq(a: &Option<u32>, b: &Option<u32>) -> (r: bool)
    ensures
        r == (a == b),
{
    match (a, b) {
        (None, None) => true,
        (Some(x), Some(y)) => *x == *y,
        _ => false,
    }
}

/// One tick: diff the polled snapshot against the state on display, commit it
/// if it is usable, and report the transitions. A failed poll (`None`) or a
/// vanished queue slot leaves the state exactly as it was.
pub fn tick(state: &mut DisplayState, poll: Option<PlayerSnapshot>) -> (t: TransitionSet)
    ensures
        *final(state) == tick_state(*old(state), poll),
        t == tick_transitions(*old(state), poll),
        !t.applied ==> *final(state) == *old(state),
        t.song_changed ==> t.applied,
        t.queue_changed ==> t.applied,
{
    let p = match poll {
        None => {
            return TransitionSet { applied: false, song_changed: false, queue_changed: false };
        },
        Some(p) => p,
    };
    if p.song_id.is_some() && p.current_song.is_none() {
        return TransitionSet { applied: false, song_changed: false, queue_changed: false };
    }
    let song_changed = !option_u32_eq(&p.song_id, &state.current_song_id);
    let queue_changed = p.queue_len != state.queue_len;
    state.current_song = p.current_song;
    state.current_song_id = p.song_id;
    state.next_song = p.next_song;
    state.queue_len = p.queue_len;
    state.elapsed_ms = p.elapsed_ms;
    state.duration_ms = p.duration_ms;
    TransitionSet { applied: true, song_changed, queue_changed }
}

/// What a transition set obliges the shell to regenerate: art is re-resolved
/// only on a song change; a song change relays out every text block; a queue
/// change alone refreshes only the queue-counter text.
#[derive(Clone, Copy, PartialEq, Eq, Structural, Debug)]
pub struct RegenActions {
    pub resolve_art: bool,
    pub regen_all_text: bool,
    pub regen_queue_text: bool,
}

/// The regeneration a transition set demands.
pub open spec fn spec_actions(t: TransitionSet) -> RegenActions {
    RegenActions {
        resolve_art: t.song_changed,
        regen_all_text: t.song_changed,
        regen_queue_text: t.song_changed || t.queue_changed,
    }
}

/// Maps a tick's transitions to the artifacts that must be regenerated.
/// Art resolution is triggered by a song change and by nothing else.
pub fn actions(t: &TransitionSet) -> (r: RegenActions)
    ensures
        r == spec_actions(*t),
{
    RegenActions {
        resolve_art: t.song_changed,
        regen_all_text: t.song_changed,
        regen_queue_text: t.song_changed || t.queue_changed,
    }
}

/// `n` ticks against one and the same poll result.
pub open spec fn tick_state_n(s: DisplayState, poll: Option<PlayerSnapshot>, n: nat) -> DisplayState
    decreases n,
{
    if n == 0 {
        s
    } else {
        tick_state(tick_state_n(s, poll, (n - 1) as nat), poll)
    }
}

/// Ticks are idempotent: when the transport keeps returning the same
/// snapshot, the state after any number of ticks equals the state after the
/// first one — repeated identical ticks cause no drift.
pub proof fn lemma_tick_idempotent(s: DisplayState, poll: Option<PlayerSnapshot>, n: nat)
    requires
        n >= 1,
    ensures
        tick_state_n(s, poll, n) == tick_state(s, poll),
    decreases n,
{
    if n == 1 {
        assert(tick_state_n(s, poll, 0) == s);
    } else {
        lemma_tick_idempotent(s, poll, (n - 1) as nat);
        let s1 = tick_state(s, poll);
        match poll {
            None => {},
            Some(p) => {
                if snapshot_consistent(p) {
                    assert(tick_state(s1, Some(p)) =~= s1);
                }
            },
        }
    }
}

/// Two consecutive ticks whose snapshots carry the identical queue-slot id
/// never report a song change on the second tick, so the second tick never
/// asks for art resolution.
pub proof fn lemma_no_spurious_art_resolution(
    s: DisplayState,
    p1: PlayerSnapshot,
    p2: PlayerSnapshot,
)
    requires
        snapshot_consistent(p1),
        snapshot_consistent(p2),
        p2.song_id == p1.song_id,
    ensures
        !tick_transitions(tick_state(s, Some(p1)), Some(p2)).song_changed,
        !spec_actions(tick_transitions(tick_state(s, Some(p1)), Some(p2))).resolve_art,
{
}

} // verus!
