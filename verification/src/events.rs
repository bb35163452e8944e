//! Input and window events: each handler mutates only the display state and
//! tells the shell what outward action, if any, the event demands.

use vstd::prelude::*;
use crate::model::DisplayState;
use crate::tick::RegenActions;

verus! {

/// The keys the display reacts to; everything else is `Other`.
#[derive(Clone, Copy, PartialEq, Eq, Structural, Debug)]
pub enum Key {
    F,
    C,
    D,
    Space,
    Escape,
    Other,
}

/// The mouse buttons the display distinguishes.
#[derive(Clone, Copy, PartialEq, Eq, Structural, Debug)]
pub enum MouseButton {
    Left,
    Other,
}

/// What the shell must do after an input event: apply the new fullscreen
/// mode, show or hide the cursor, toggle playback on the transport, or leave
/// the frame loop.
#[derive(Clone, Copy, PartialEq, Eq, Structural, Debug)]
pub enum ShellAction {
    Ignored,
    ApplyFullscreen { fullscreen: bool },
    SetCursorVisible { visible: bool },
    TogglePause,
    Exit,
}

/// Handles a key press: `F` toggles fullscreen, `C` cursor visibility, `D`
/// the debug overlay, `Space` playback; `Escape` exits; anything else is
/// ignored. Only the named flag of the state changes.
pub fn handle_key(state: &mut DisplayState, key: Key) -> (a: ShellAction)
    ensures
        ({
            let s0 = *old(state);
            let s1 = *final(state);
            match key {
                Key::F => s1 == (DisplayState { fullscreen: !s0.fullscreen, ..s0 }) && a == (
                ShellAction::ApplyFullscreen { fullscreen: !s0.fullscreen }),
                Key::C => s1 == (DisplayState { cursor_visible: !s0.cursor_visible, ..s0 }) && a
                    == (ShellAction::SetCursorVisible { visible: !s0.cursor_visible }),
                Key::D => s1 == (DisplayState { show_debug: !s0.show_debug, ..s0 }) && a
                    == ShellAction::Ignored,
                Key::Space => s1 == s0 && a == ShellAction::TogglePause,
                Key::Escape => s1 == s0 && a == ShellAction::Exit,
                Key::Other => s1 == s0 && a == ShellAction::Ignored,
            }
        }),
{
    match key {
        Key::F => {
            state.fullscreen = !state.fullscreen;
            ShellAction::ApplyFullscreen { fullscreen: state.fullscreen }
        },
        Key::C => {
            state.cursor_visible = !state.cursor_visible;
            ShellAction::SetCursorVisible { visible: state.cursor_visible }
        },
        Key::D => {
            state.show_debug = !state.show_debug;
            ShellAction::Ignored
        },
        Key::Space => ShellAction::TogglePause,
        Key::Escape => ShellAction::Exit,
        Key::Other => ShellAction::Ignored,
    }
}

/// Handles a mouse click: the left button toggles playback, others are
/// ignored; the state never changes.
pub fn handle_mouse_down(button: MouseButton) -> (a: ShellAction)
    ensures
        a == (match button {
            MouseButton::Left => ShellAction::TogglePause,
            MouseButton::Other => ShellAction::Ignored,
        }),
{
    match button {
        MouseButton::Left => ShellAction::TogglePause,
        MouseButton::Other => ShellAction::Ignored,
    }
}

/// The pointer hovers over the progress bar when its vertical position lies
/// in the band of four hundredths of the viewport height centered on the
/// bar's middle. Positions are in milli-pixels.
pub open spec fn spec_bar_hover(height: u32, y_milli: int) -> bool {
    let h = height as int;
    let bar_middle = h * 900 - (h * 6) / 2;
    let margins = h * 20;
    bar_middle - margins < y_milli < bar_middle + margins
}

/// Handles pointer motion: records whether the pointer now hovers over the
/// progress bar; nothing else of the state changes.
pub fn handle_mouse_move(state: &mut DisplayState, y_milli: i64)
    ensures
        *final(state) == (DisplayState {
            bar_hover: spec_bar_hover(old(state).height, y_milli as int),
            ..*old(state)
        }),
{
    let h = state.height as i64;
    let bar_middle = h * 900 - (h * 6) / 2;
    let margins = h * 20;
    state.bar_hover = bar_middle - margins < y_milli && y_milli < bar_middle + margins;
}

/// Handles a window resize: records the new geometry and demands a full text
/// relayout (font sizes depend on the viewport), but never art re-resolution.
pub fn handle_resize(state: &mut DisplayState, width: u32, height: u32) -> (r: RegenActions)
    ensures
        *final(state) == (DisplayState { width, height, ..*old(state) }),
        r == (RegenActions { resolve_art: false, regen_all_text: true, regen_queue_text: true }),
{
    state.width = width;
    state.height = height;
    RegenActions { resolve_art: false, regen_all_text: true, regen_queue_text: true }
}

/// Records a fullscreen change the window system reports.
pub fn fullscreen_changed(state: &mut DisplayState, fullscreen: bool)
    ensures
        *final(state) == (DisplayState { fullscreen, ..*old(state) }),
{
    state.fullscreen = fullscreen;
}

} // verus!
