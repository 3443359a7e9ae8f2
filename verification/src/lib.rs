//! Verified core of a small 2D platformer prototype.
//!
//! The crate holds the decision logic of the game: the kinematic player
//! controller (lateral movement, jump accumulator, gravity fall), the ground
//! sensor that aggregates overlap events into a grounded flag, and the
//! camera-fit algorithm that sizes a 16:9 viewport to the active level.
//!
//! All world-space lengths are carried as integers in millipixels and all
//! frame deltas in milliseconds, so every rule is exact: a speed given in
//! pixels per second is numerically the same in millipixels per millisecond.
//! The surrounding engine (windowing, rendering, asset loading, the physics
//! step itself) is an external collaborator: it feeds the library plain
//! values (key states, frame deltas, level geometry, overlap events) and
//! consumes the displacement requests and camera transforms computed here.

pub mod camera;
pub mod ground;
pub mod player;
