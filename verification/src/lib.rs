//! Simulation core of a side-scrolling runner game.
//!
//! A player character runs over a procedurally extended obstacle course.
//! The crate verifies the character's animation/physics state machine, the
//! obstacle collision rules, the segment generator that extends the course,
//! and the top-level game-flow state machine. Rendering, asset loading,
//! input capture and audio are host concerns and live outside this crate.

use vstd::prelude::*;

pub mod barrier;
pub mod game_flow;
pub mod image;
pub mod key_state;
pub mod obstacle;
pub mod platform;
pub mod point;
pub mod rect;
pub mod redhatboy;
pub mod segment;
pub mod sprite_sheet;
pub mod walk;

pub use barrier::Barrier;
pub use game_flow::{WalkTheDog, WalkTheDogStateMachine};
pub use image::Image;
pub use key_state::KeyState;
pub use obstacle::Obstacle;
pub use platform::Platform;
pub use point::Point;
pub use rect::Rect;
pub use sprite_sheet::{Cell, SheetRect, SpriteSheet};
pub use walk::Walk;

verus! {

/// Width of the logical canvas, in pixels.
pub const WIDTH: i16 = 600;

/// Height of the logical canvas, in pixels.
pub const HEIGHT: i16 = 600;

} // verus!
