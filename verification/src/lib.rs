//! Deterministic generation of a universe, a galaxy and the star system at one
//! coordinate of it. The generator library makes the content; this library
//! runs its stages in order, settles the seed, refuses settings, galaxy
//! indices and coordinates that are out of range, and hands out a division, a
//! hex or a star system only after it has found it in place and sound.

pub mod chart;
pub mod coordinates;
pub mod failure;
pub mod generator;
pub mod grid;
pub mod hierarchy;
pub mod layers;
pub mod neighborhood;
pub mod pipeline;
pub mod settings;
pub mod text;
