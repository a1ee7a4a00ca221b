//! Verified core of a kick/bass phase alignment processor.
use vstd::prelude::*;

pub mod correction;
pub mod history;
pub mod kick_detector;
pub mod lookahead_buffer;
pub mod median;
pub mod phase_controller;
pub mod phase_rotator;
pub mod pipeline;

verus! {

} // verus!
