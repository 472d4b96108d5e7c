//! Flappy Dragon: the rules of a side-scrolling arcade game, proved with Verus.
//!
//! A dragon flies through a field of gap obstacles while adversaries roam
//! ahead of it. The host loop hands every frame to [`State::tick`] as a
//! [`Frame`] holding the pressed key and the elapsed time, and gets back the
//! commands to draw and a request to quit, if one was made.
//!
//! Vertical speed is kept in fifths of a row per physics step, so that one
//! pull of gravity is one unit and the whole simulation is exact integer
//! arithmetic. Elapsed time is counted in microseconds.

pub mod baddie;
pub mod dice;
pub mod field;
pub mod frame;
pub mod glyph;
pub mod input;
pub mod obstacle;
pub mod player;
pub mod state;
pub mod text;

pub use baddie::Baddie;
pub use field::{FRAME_DURATION, SCREEN_HEIGHT, SCREEN_WIDTH};
pub use frame::{Color, Command, Frame};
pub use input::{Event, GameMode, Key};
pub use obstacle::Obstacle;
pub use player::Player;
pub use state::State;
