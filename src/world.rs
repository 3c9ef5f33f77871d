use vstd::prelude::*;
use crate::floor::{FloorSegment, GenerationState, generate_floor, segment_at};
use crate::geometry::Point3;
use crate::skybox::Cubemap;

verus! {

/// Where the player's ball appears, in thousandths: four units up.
pub const PLAYER_SPAWN_Y: i64 = 4000;

/// Strength of the sun in lux.
pub const SUN_ILLUMINANCE: i64 = 10000;

/// Tilt of the sun about the lateral axis, in thousandths of a degree: it
/// points straight down.
pub const SUN_TILT_MILLIDEGREES: i64 = -90000;

/// The player's ball and its physical settings, each in thousandths.
#[derive(Clone, Copy, Debug, PartialEq, Eq, Structural)]
pub struct PlayerBody {
    pub spawn: Point3,
    pub radius: i64,
    pub restitution: i64,
    pub linear_damping: i64,
    pub angular_damping: i64,
    pub gravity_scale: i64,
}

/// The light that stands for the sun: its strength in lux, whether it casts
/// shadows, and its tilt about the lateral axis in thousandths of a degree.
#[derive(Clone, Copy, Debug, PartialEq, Eq, Structural)]
pub struct SunLight {
    pub illuminance: i64,
    pub shadows: bool,
    pub tilt_millidegrees: i64,
}

/// The scene at start-up, with the first floor segment under the ball.
#[derive(Clone, Copy, Debug, PartialEq, Eq, Structural)]
pub struct WorldSetup {
    pub player: PlayerBody,
    pub sun: SunLight,
    pub cubemap: Cubemap,
    pub generation: GenerationState,
    pub first_segment: FloorSegment,
}

/// The ball at start-up: radius 0.5, restitution 0.7, damping 0.5 linear and
/// 1 angular, ten times normal gravity, at `(0, 4, 0)`.
pub open spec fn initial_player() -> PlayerBody {
    PlayerBody {
        spawn: Point3 { x: 0, y: PLAYER_SPAWN_Y, z: 0 },
        radius: 500,
        restitution: 700,
        linear_damping: 500,
        angular_damping: 1000,
        gravity_scale: 10000,
    }
}

/// Describes the scene to build at start-up: the ball, a sun pointing
/// straight down, a skybox still loading, the extender `Idle`, and one floor
/// segment placed under the ball's spawn point.
pub fn setup_world() -> (r: WorldSetup)
    ensures
        r.player == initial_player(),
        r.sun == (SunLight {
            illuminance: SUN_ILLUMINANCE,
            shadows: true,
            tilt_millidegrees: SUN_TILT_MILLIDEGREES,
        }),
        !r.cubemap.is_loaded,
        r.generation == GenerationState::Idle,
        r.first_segment == segment_at(r.player.spawn),
{
    let player = PlayerBody {
        spawn: Point3::new(0, PLAYER_SPAWN_Y, 0),
        radius: 500,
        restitution: 700,
        linear_damping: 500,
        angular_damping: 1000,
        gravity_scale: 10000,
    };
    let first_segment = generate_floor(player.spawn);
    WorldSetup {
        player,
        sun: SunLight {
            illuminance: SUN_ILLUMINANCE,
            shadows: true,
            tilt_millidegrees: SUN_TILT_MILLIDEGREES,
        },
        cubemap: Cubemap::new(),
        generation: GenerationState::Idle,
        first_segment,
    }
}

} // verus!
