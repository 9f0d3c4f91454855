//! The rules of a two-paddle ball game, stated over integers and proved.
//!
//! Lengths are counted in millionths of a field unit, time in milliseconds,
//! and speeds in length units per millisecond, so that one step of motion is
//! a single multiplication. The host supplies the frame clock, the keys and
//! the drawing; everything the game decides is decided here.

pub mod geometry;
pub mod chance;
pub mod paddle;
pub mod game;
pub mod ball;
pub mod pace;

