//! The camera transform: a fixed-point position and a yaw-only orientation.

use vstd::prelude::*;

verus! {

/// One full turn (two pi radians) in micro-radians, rounded to the nearest
/// integer.
pub const TAU_MICRORADIANS: i64 = 6_283_185;

/// A point or displacement in 3-D space.  Each coordinate is measured in
/// micro-units: one millionth of a world unit.  The fixed-point scale keeps
/// every controller update exact.
#[derive(Clone, Copy, Debug, PartialEq, Eq, Structural)]
pub struct Vec3Micro {
    pub x: i64,
    pub y: i64,
    pub z: i64,
}

/// The position and orientation of the camera.
///
/// The orientation is constrained to yaw only — rotation about the vertical
/// axis — and is stored in micro-radians, measured from the camera's initial
/// orientation and kept in the half-open range `[0, TAU_MICRORADIANS)`.
#[derive(Clone, Copy, Debug, PartialEq, Eq, Structural)]
pub struct Transform {
    pub position: Vec3Micro,
    pub yaw_microradians: i64,
}

impl Transform {
    /// Well-formedness: the yaw always stays within one turn.
    pub open spec fn wf(self) -> bool {
        0 <= self.yaw_microradians < TAU_MICRORADIANS
    }
}

} // verus!
