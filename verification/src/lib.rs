//! Per-tick physics and collision resolution for an entity moving through a
//! block-structured voxel world.
//!
//! All coordinates, velocities and times are held in a fixed-point format:
//! signed 64-bit counts of 1/120000 of a world unit (see `fixed`).  Every
//! constant of the movement model (walk and sprint speed, gravity, jump
//! impulse, terminal velocity, the resolution epsilon, the step-up unit) is
//! exact in this format, so the whole pipeline is exact integer arithmetic
//! with a proved absence of overflow.
//!
//! The only thing the library does not compute itself is trigonometry: the
//! caller hands the tick the cosine and sine of the heading (scaled the same
//! way), and every contract is exact in terms of those two inputs.

pub mod fixed;
pub mod geom;
pub mod world;
pub mod input;
pub mod collide;
pub mod player;
