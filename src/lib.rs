//! Per-tick behaviour of a side-scrolling character: sprite animation timing,
//! horizontal movement, a two-state jump/fall model, and the choice of sprite sheet
//! and facing from a snapshot of the keyboard.
//!
//! Units: time in microseconds, distances in micro-units (millionths of a world unit),
//! speeds in world units per second, so that a speed times a tick length is a distance.
pub mod animation;
pub mod appearance;
pub mod input;
pub mod character;
