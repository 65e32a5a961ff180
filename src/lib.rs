//! Per-frame decisions of a top-down tank game: the action snapshot that the
//! input resolvers write and the kinematics read, pointer-aim overrides, the
//! choice of the camera that projects the pointer, what each frame does with
//! a tank's body and barrel, and the cooldown that spaces a tank's shots.
//!
//! Vector and scalar values are the host's own types: the library carries
//! them through and decides what is done with them.
use vstd::prelude::*;

pub mod action;
pub mod cooldown;
pub mod input;
pub mod tanks;

verus! {

} // verus!
