use vstd::prelude::*;
use crate::geometry::{Point3, can_offset, offset_spec};

verus! {

/// Height of the camera above the player, in thousandths.
pub const CAMERA_RISE: i64 = 5000;

/// Distance of the camera behind the player along `z`, in thousandths.
pub const CAMERA_TRAIL: i64 = 10000;

/// Where the camera stands, the point it looks at, and its up direction.
#[derive(Clone, Copy, Debug, PartialEq, Eq, Structural)]
pub struct CameraPose {
    pub eye: Point3,
    pub target: Point3,
    pub up: Point3,
}

/// Whether the camera can trail a player at `player` without leaving the
/// coordinate range.
pub open spec fn can_follow(player: Point3) -> bool {
    can_offset(player, 0, CAMERA_RISE as int, CAMERA_TRAIL as int)
}

/// The pose of a camera that follows a player at `player`: offset by
/// `(0, 5, 10)` and looking at the player, with `+y` up.
pub open spec fn follow_pose(player: Point3) -> CameraPose {
    CameraPose {
        eye: offset_spec(player, 0, CAMERA_RISE as int, CAMERA_TRAIL as int),
        target: player,
        up: Point3 { x: 0, y: 1000, z: 0 },
    }
}

/// Moves the camera to trail the player. The new pose depends on the player's
/// position alone, never on where the camera was.
pub fn follow_player(camera: &mut CameraPose, player: Point3)
    requires
        can_follow(player),
    ensures
        *final(camera) == follow_pose(player),
        final(camera).eye.x == player.x,
        final(camera).eye.y == player.y + 5000,
        final(camera).eye.z == player.z + 10000,
        final(camera).target == player,
{
    *camera = CameraPose {
        eye: player.offset(0, CAMERA_RISE, CAMERA_TRAIL),
        target: player,
        up: Point3::new(0, 1000, 0),
    };
}

} // verus!
