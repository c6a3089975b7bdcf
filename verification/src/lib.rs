//! Verified core of a snooker aim trainer: the puzzle-set model and its
//! validation and sampling rules, the on-screen control layout and hit
//! tests, the game's view-mode / toggle state machine, the bounded reroll
//! loop that picks a realistic random layout, and the choices the shot
//! geometry feeds: the target pocket, the pocket a shot falls into, and the
//! piece of a cushion boundary table that applies.
//!
//! Measuring the table in metres (ray casts, cut angles, interpolation) is
//! floating-point geometry and lives in the application around this crate;
//! the library works on indices, pixels, states and order keys of measured
//! values.

pub mod table;
pub mod puzzle;
pub mod touch_ui;
pub mod game_state;
pub mod shot;
