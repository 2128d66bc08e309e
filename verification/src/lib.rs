//! Two small terminal arcade games, reduced to their rules.
//!
//! Every quantity the games work with is an integer: the game values are
//! fixed-point fractions of [`shared::ONE`], and time is a count of
//! nanoseconds on a monotonic clock that the caller reads. The caller owns the
//! terminal, the keyboard and the sound device; the library decides what a key
//! press does, which sound cue it calls for and what a frame shows.
//!
//! A turn of the caller's main loop goes through a session in this order:
//! `advance_time` with the clock reading, `handle_events` with the input that
//! was pending, `tick`, and `render` for the frame to draw. The loop ends when
//! `should_exit` is true.
//!
//! - [`game01`] and [`game02`]: the two games, each with its session, the
//!   model that its contracts speak of, and its laws.
//! - [`input`]: key events and the actions that keys stand for.
//! - [`scene`]: the parts of a frame's description.
//! - [`timing`]: the clock readings of a session.
//! - [`shared`]: fixed-point rounding, the play-through state, the sound cues.
//! - [`generator`]: the noise generator and the random seeds, which come
//!   from other crates.
//! - [`menu`]: the choice of a game by its name.

pub mod game01;
pub mod game02;
pub mod generator;
pub mod input;
pub mod menu;
pub mod scene;
pub mod shared;
pub mod timing;
