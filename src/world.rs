use vstd::prelude::*;

verus! {

/// Number of bodies placed in the world at start-up.
pub const CIRCLE_COUNT: usize = 10;

/// Width of the world, in window units.
pub const WIDTH: i32 = 1280;

/// Height of the world, in window units.
pub const HEIGHT: i32 = 720;

/// The world spans `[-HALF_WIDTH, HALF_WIDTH]` horizontally.
pub const HALF_WIDTH: i32 = 640;

/// The world spans `[-HALF_HEIGHT, HALF_HEIGHT]` vertically.
pub const HALF_HEIGHT: i32 = 360;

/// A body as it is placed at start-up: a position on the integer grid and a
/// velocity. Both are widened to floating point by the host before the
/// first integration step.
#[derive(Clone, Copy, Debug, PartialEq, Eq, Structural)]
pub struct SpawnedBody {
    pub x: i32,
    pub y: i32,
    pub vx: i32,
    pub vy: i32,
}

/// Whether `(x, y)` lies in the half-open spawn rectangle
/// `[-HALF_WIDTH, HALF_WIDTH) x [-HALF_HEIGHT, HALF_HEIGHT)`.
pub open spec fn in_spawn_area(x: int, y: int) -> bool {
    -HALF_WIDTH <= x < HALF_WIDTH && -HALF_HEIGHT <= y < HALF_HEIGHT
}

impl SpawnedBody {
    /// A freshly spawned body: inside the spawn rectangle and at rest.
    pub open spec fn is_fresh(self) -> bool {
        in_spawn_area(self.x as int, self.y as int) && self.vx == 0 && self.vy == 0
    }
}

} // verus!
