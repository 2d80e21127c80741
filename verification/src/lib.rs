//! A viewer's core for a grid world that is discovered piece by piece.
//!
//! Lengths on screen are counted in hundredths of a pixel and scale factors in
//! hundredths, so that every step of the camera is an exact integer.

use vstd::prelude::*;

pub mod camera;
pub mod channel;
pub mod draw;
pub mod driver;
pub mod input;
pub mod inventory;
pub mod text;
pub mod textures;
pub mod tile;
pub mod visbackpack;
pub mod visdata;
pub mod visenergy;
pub mod vismap;

verus! {

/// Width of the window, in pixels.
pub const WINDOW_WIDTH: i32 = 800;

/// Height of the window, in pixels.
pub const WINDOW_HEIGHT: i32 = 800;

} // verus!
