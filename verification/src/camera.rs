//! The camera: where the map lies on the screen, and how large.
//!
//! The offset of the map is counted in hundredths of a pixel and the scale in
//! hundredths, so a scale of 20 draws a tile of 64 pixels on 12.8 pixels, which
//! is 1280 hundredths. The scale is kept between `SCALE_MIN` and `SCALE_MAX`,
//! and each axis of the offset between `-PAN_LIMIT` and `PAN_LIMIT`: a step that
//! would leave the range stops at its end.

use vstd::prelude::*;
use crate::{WINDOW_HEIGHT, WINDOW_WIDTH};

verus! {

/// Side of a tile at scale one, in pixels.
pub const PIXEL: i64 = 64;

/// The scale the camera starts with, in hundredths.
pub const SCALE: i64 = 20;

/// The scale of the backpack panel, in hundredths.
pub const BP_SCALE: i64 = 50;

/// Height of the strip above the map that is kept for the texts, in hundredths of a pixel.
pub const TOP_OFFSET: i64 = 6400;

/// The smallest scale, in hundredths.
pub const SCALE_MIN: i64 = 5;

/// The largest scale, in hundredths.
pub const SCALE_MAX: i64 = 1000;

/// The farthest that the map can be moved along an axis, in hundredths of a pixel.
pub const PAN_LIMIT: i64 = 1_000_000_000_000;

/// What one tap on the zoom-in key adds to the scale, in hundredths.
pub const ZOOM_IN: i64 = 10;

/// What one tap on the zoom-out key adds to the scale, in hundredths.
pub const ZOOM_OUT: i64 = -5;

/// The four ways to look: the map moves the other way.
#[derive(Clone, Copy, Debug, PartialEq, Eq, Structural)]
pub enum Direction {
    /// The map moves to the right.
    Left,
    /// The map moves to the left.
    Right,
    /// The map moves downwards.
    Up,
    /// The map moves upwards.
    Down,
}

/// What a camera is, to contracts.
pub struct CameraView {
    /// Offset of the map to the right, in hundredths of a pixel.
    pub pan_x: int,
    /// Offset of the map downwards, in hundredths of a pixel.
    pub pan_y: int,
    /// The scale, in hundredths.
    pub scale: int,
}

/// The camera at the start: no offset, and the scale `SCALE`.
pub open spec fn initial_camera() -> CameraView {
    CameraView { pan_x: 0, pan_y: 0, scale: SCALE as int }
}

/// `v`, or the end of the range from `lo` to `hi` that is nearest to it.
pub open spec fn clamp(v: int, lo: int, hi: int) -> int {
    if v < lo {
        lo
    } else if v > hi {
        hi
    } else {
        v
    }
}

/// The side of a tile on screen at `scale`, in hundredths of a pixel.
pub open spec fn tile_step(scale: int) -> int {
    PIXEL * scale
}

/// A quarter of the side of a tile on screen at `scale`.
pub open spec fn quarter_step(scale: int) -> int {
    tile_step(scale) / 4
}

/// The camera after a look by `step` in `direction`.
pub open spec fn panned(camera: CameraView, direction: Direction, step: int) -> CameraView {
    match direction {
        Direction::Left => CameraView {
            pan_x: clamp(camera.pan_x + step, -PAN_LIMIT, PAN_LIMIT as int),
            ..camera
        },
        Direction::Right => CameraView {
            pan_x: clamp(camera.pan_x - step, -PAN_LIMIT, PAN_LIMIT as int),
            ..camera
        },
        Direction::Up => CameraView {
            pan_y: clamp(camera.pan_y + step, -PAN_LIMIT, PAN_LIMIT as int),
            ..camera
        },
        Direction::Down => CameraView {
            pan_y: clamp(camera.pan_y - step, -PAN_LIMIT, PAN_LIMIT as int),
            ..camera
        },
    }
}

/// The camera after `delta` was added to the scale: both axes of the offset
/// grow by the side that a tile had before.
pub open spec fn zoomed(camera: CameraView, delta: int) -> CameraView {
    CameraView {
        pan_x: clamp(camera.pan_x + tile_step(camera.scale), -PAN_LIMIT, PAN_LIMIT as int),
        pan_y: clamp(camera.pan_y + tile_step(camera.scale), -PAN_LIMIT, PAN_LIMIT as int),
        scale: clamp(camera.scale + delta, SCALE_MIN as int, SCALE_MAX as int),
    }
}

/// Where the cell at `row` and `col` is drawn: to the right and downwards, in
/// hundredths of a pixel.
pub open spec fn screen_position(camera: CameraView, row: int, col: int) -> (int, int) {
    (
        camera.pan_x + col * tile_step(camera.scale),
        TOP_OFFSET + camera.pan_y + row * tile_step(camera.scale),
    )
}

/// Whether a cell drawn at `x` and `y` is shown: `x` from the left edge up to the
/// window's width, `y` below the top edge up to the window's height.
pub open spec fn in_viewport(x: int, y: int) -> bool {
    &&& 0 <= x < WINDOW_WIDTH * 100
    &&& 0 < y < WINDOW_HEIGHT * 100
}

/// A camera's offsets and scale lie in their ranges.
pub open spec fn in_range(camera: CameraView) -> bool {
    &&& -PAN_LIMIT <= camera.pan_x <= PAN_LIMIT
    &&& -PAN_LIMIT <= camera.pan_y <= PAN_LIMIT
    &&& SCALE_MIN <= camera.scale <= SCALE_MAX
}

/// Whether a cell drawn at `x` and `y` is shown.
pub fn is_visible(x: i128, y: i128) -> (shown: bool)
    ensures
        shown == in_viewport(x as int, y as int),
{
    0 <= x && x < (WINDOW_WIDTH as i128) * 100 && 0 < y && y < (WINDOW_HEIGHT as i128) * 100
}

/// `v` moved by `step`, kept between `-PAN_LIMIT` and `PAN_LIMIT`.
fn moved(v: i64, step: i128) -> (r: i64)
    requires
        -PAN_LIMIT <= v <= PAN_LIMIT,
        -0x1_0000_0000_0000_0000 < step < 0x1_0000_0000_0000_0000,
    ensures
        r == clamp(v + step, -PAN_LIMIT, PAN_LIMIT as int),
{
    let sum: i128 = v as i128 + step;
    if sum < -(PAN_LIMIT as i128) {
        -PAN_LIMIT
    } else if sum > PAN_LIMIT as i128 {
        PAN_LIMIT
    } else {
        sum as i64
    }
}

/// The offset of the map and the scale it is drawn at.
pub struct Camera {
    pan_x: i64,
    pan_y: i64,
    scale: i64,
}

impl View for Camera {
    type V = CameraView;

    closed spec fn view(&self) -> CameraView {
        CameraView { pan_x: self.pan_x as int, pan_y: self.pan_y as int, scale: self.scale as int }
    }
}

impl Camera {
    #[verifier::type_invariant]
    spec fn well_formed(&self) -> bool {
        in_range(self@)
    }

    /// The camera at the start: no offset, and the scale `SCALE`.
    pub fn new() -> (camera: Camera)
        ensures
            camera@ == initial_camera(),
    {
        Camera { pan_x: 0, pan_y: 0, scale: SCALE }
    }

    /// The offset of the map: to the right, then downwards.
    pub fn map_pos(&self) -> (pos: (i64, i64))
        ensures
            pos.0 == self@.pan_x,
            pos.1 == self@.pan_y,
            in_range(self@),
    {
        proof {
            use_type_invariant(self);
        }
        (self.pan_x, self.pan_y)
    }

    /// The scale.
    pub fn scale(&self) -> (scale: i64)
        ensures
            scale == self@.scale,
            in_range(self@),
    {
        proof {
            use_type_invariant(self);
        }
        self.scale
    }

    /// Looks `step` further in `direction`.
    pub fn pan_by(&mut self, direction: Direction, step: i64)
        ensures
            final(self)@ == panned(old(self)@, direction, step as int),
    {
        proof {
            use_type_invariant(&*self);
        }
        match direction {
            Direction::Left => {
                self.pan_x = moved(self.pan_x, step as i128);
            },
            Direction::Right => {
                self.pan_x = moved(self.pan_x, -(step as i128));
            },
            Direction::Up => {
                self.pan_y = moved(self.pan_y, step as i128);
            },
            Direction::Down => {
                self.pan_y = moved(self.pan_y, -(step as i128));
            },
        }
    }

    /// Looks further in `direction`: by the side of a tile for a tap, by a quarter
    /// of it for a key that is held.
    pub fn apply_pan(&mut self, direction: Direction, held: bool)
        ensures
            final(self)@ == panned(
                old(self)@,
                direction,
                if held {
                    quarter_step(old(self)@.scale)
                } else {
                    tile_step(old(self)@.scale)
                },
            ),
    {
        proof {
            use_type_invariant(&*self);
        }
        let step = if held {
            PIXEL * self.scale / 4
        } else {
            PIXEL * self.scale
        };
        self.pan_by(direction, step);
    }

    /// Adds `delta` to the scale and moves the map right and down by the side
    /// that a tile had before.
    pub fn apply_zoom(&mut self, delta: i64)
        ensures
            final(self)@ == zoomed(old(self)@, delta as int),
    {
        proof {
            use_type_invariant(&*self);
        }
        let step = PIXEL * self.scale;
        let wanted: i128 = self.scale as i128 + delta as i128;
        let scale = if wanted < SCALE_MIN as i128 {
            SCALE_MIN
        } else if wanted > SCALE_MAX as i128 {
            SCALE_MAX
        } else {
            wanted as i64
        };
        self.pan_x = moved(self.pan_x, step as i128);
        self.pan_y = moved(self.pan_y, step as i128);
        self.scale = scale;
    }

    /// Where the cell at `row` and `col` is drawn.
    pub fn world_to_screen(&self, row: usize, col: usize) -> (p: (i128, i128))
        ensures
            (p.0 as int, p.1 as int) == screen_position(self@, row as int, col as int),
    {
        proof {
            use_type_invariant(self);
        }
        let step: i128 = (PIXEL * self.scale) as i128;
        assert(0 <= col * step <= 0xffff_ffff_ffff_ffff * 64000) by (nonlinear_arith)
            requires
                0 <= col <= 0xffff_ffff_ffff_ffff,
                0 <= step <= 64000,
        ;
        assert(0 <= row * step <= 0xffff_ffff_ffff_ffff * 64000) by (nonlinear_arith)
            requires
                0 <= row <= 0xffff_ffff_ffff_ffff,
                0 <= step <= 64000,
        ;
        let x: i128 = self.pan_x as i128 + (col as i128) * step;
        let y: i128 = TOP_OFFSET as i128 + self.pan_y as i128 + (row as i128) * step;
        (x, y)
    }
}

} // verus!
