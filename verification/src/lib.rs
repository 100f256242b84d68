//! A verified core for a terminal demo that shows a rotating wireframe cube.
//!
//! The crate holds the two parts of the demo that are pure logic: the cube's
//! geometry (its eight corners and the twelve edges derived from them) and the
//! controller state machine that reacts to key presses and drives the three
//! rotation angles. Rotation angles are kept as integers counted in half
//! degrees, so every keyboard step (0.5, 1.0 or 2.0 degrees) is exact.
//! The floating-point rotation and projection arithmetic, and all terminal
//! input and output, live outside this crate in its thin front end.

pub mod cube;
pub mod geometry;
