//! A two-paddle ball game simulation on an integer fixed-point model.
//!
//! Lengths are counted in micro-units (a millionth of an arena unit), time
//! in microseconds, and direction components in billionths.
use vstd::prelude::*;

pub mod arena;
pub mod ball;
pub mod direction;
pub mod paddle;
pub mod state;

verus! {

} // verus!
