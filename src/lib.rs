//! A circle moving in a walled arena, bouncing off the walls and off pairs of mirrors
//! that vanish together when touched. Geometry and time are held as integers: see
//! `arena` for the units.

pub mod arena;
pub mod geometry;
pub mod random;
pub mod sim;
pub mod world;
