//! A verified orbit-camera controller: a camera constrained to a sphere
//! around a focus point, zoomed by scroll input and auto-rotated each frame.
//!
//! All scalars are fixed-point values (millionths of a unit), so every
//! arithmetic step has an exact, machine-checked meaning.

pub mod fixed;
pub mod orbit;
