//! Movement, bouncing and window confinement for a small top-down sprite
//! scene, on an integer model of the playfield.
//!
//! Positions and window sizes are micro-units (`POSITION_ONE` to a world
//! unit), elapsed frame time is in microseconds, speeds are world units per
//! second, and direction vectors are fixed-point with `DIRECTION_ONE`
//! standing for a length of one.
use vstd::prelude::*;

pub mod geometry;
pub mod player;
pub mod enemy;


