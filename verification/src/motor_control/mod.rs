pub mod board_state;
pub mod control;
pub mod driver;
pub mod foc;
pub mod homing;
pub mod poulpe_state;
pub mod sensors;
pub mod supervision;

use vstd::prelude::*;

verus! {

/// Proportional and integral gains of one controller, as 16-bit register values.
#[derive(Debug, Clone, Copy, PartialEq, Eq, Structural)]
pub struct Pid {
    pub p: i16,
    pub i: i16,
}

} // verus!

