//! Game rules of a rolling-ball prototype, kept apart from the engine that
//! renders and simulates it: camera follow, keyboard-driven velocity, the
//! procedural floor extender and the skybox fix-up. Positions and velocities
//! are fixed-point integers in thousandths of a world unit.

pub mod geometry;
pub mod floor;
pub mod skybox;
pub mod input;
pub mod camera;
pub mod world;
