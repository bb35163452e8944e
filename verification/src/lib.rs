//! Verified core of a fullscreen "now playing" display client for a music
//! player daemon.
//!
//! The library owns everything that can be stated and proved: the display
//! state and its per-tick synchronization against a polled player snapshot,
//! the trigger policy that decides when text and album art are regenerated,
//! the deterministic frame layout (a pure function from state and geometry to
//! draw commands), the font auto-shrink loop, the background-art key
//! derivation, and the clock-label formatting.
//!
//! Everything effectful — the window shell, the player transport, font
//! shaping, image decoding, the picture-extraction subprocess — lives outside
//! the library and exchanges plain values with it. Geometry is carried in
//! milli-pixels (one thousandth of a pixel) so that every coordinate is exact
//! integer arithmetic.

pub mod art;
pub mod clock;
pub mod content;
pub mod events;
pub mod fraction;
pub mod layout;
pub mod model;
pub mod textfit;
pub mod tick;
