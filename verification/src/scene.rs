//! The initial scene: three cubes with the animated material, and the
//! camera the controller steers.

use vstd::prelude::*;

use crate::transform::{Transform, Vec3Micro};

verus! {

broadcast use vstd::string::to_string_from_display_ensures_for_str;

/// The edge length of each spawned cube, in micro-units (two world units).
pub const CUBE_SIZE_MICROUNITS: i64 = 2_000_000;

/// Where one cube is spawned and how large it is.
#[derive(Clone, Copy, Debug, PartialEq, Eq, Structural)]
pub struct CubePlacement {
    pub size: i64,
    pub position: Vec3Micro,
}

/// The three cubes the scene starts with: all of edge length two world
/// units, half a unit above the ground, side by side along the x axis.
pub fn initial_cubes() -> (cubes: Vec<CubePlacement>)
    ensures
        cubes@.len() == 3,
        cubes@[0] == (CubePlacement {
            size: CUBE_SIZE_MICROUNITS,
            position: Vec3Micro { x: 0, y: 500_000, z: 0 },
        }),
        cubes@[1] == (CubePlacement {
            size: CUBE_SIZE_MICROUNITS,
            position: Vec3Micro { x: 3_000_000, y: 500_000, z: 0 },
        }),
        cubes@[2] == (CubePlacement {
            size: CUBE_SIZE_MICROUNITS,
            position: Vec3Micro { x: -3_000_000i64, y: 500_000, z: 0 },
        }),
{
    let mut cubes: Vec<CubePlacement> = Vec::new();
    cubes.push(
        CubePlacement { size: CUBE_SIZE_MICROUNITS, position: Vec3Micro { x: 0, y: 500_000, z: 0 } },
    );
    cubes.push(
        CubePlacement {
            size: CUBE_SIZE_MICROUNITS,
            position: Vec3Micro { x: 3_000_000, y: 500_000, z: 0 },
        },
    );
    cubes.push(
        CubePlacement {
            size: CUBE_SIZE_MICROUNITS,
            position: Vec3Micro { x: -3_000_000, y: 500_000, z: 0 },
        },
    );
    cubes
}

/// The camera's starting transform.  The yaw is measured from this initial
/// orientation, so it starts at zero.
pub fn initial_camera() -> (t: Transform)
    ensures
        t.wf(),
        t.position == (Vec3Micro { x: -2_500_000i64, y: 3_000_000, z: 5_000_000 }),
        t.yaw_microradians == 0,
{
    Transform {
        position: Vec3Micro { x: -2_500_000, y: 3_000_000, z: 5_000_000 },
        yaw_microradians: 0,
    }
}

/// The asset path of the fragment shader bound to the cubes' material.
pub fn shader_asset_path() -> (path: String)
    ensures
        path@ == "shaders/animate_shader.wgsl"@,
{
    "shaders/animate_shader.wgsl".to_string()
}

} // verus!
