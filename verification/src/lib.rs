//! Verified N-body simulation core.
//!
//! Point masses under mutual Newtonian gravitation are advanced in fixed
//! time steps by one of three integration schemes (forward Euler,
//! semi-implicit Euler, leapfrog).  All state is held in fixed-point
//! scalars so that every arithmetic step has an exact, machine-checked
//! meaning.

pub mod fixed;
pub mod gravity;
pub mod vec3;
pub mod world;
