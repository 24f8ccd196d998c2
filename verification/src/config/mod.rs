pub mod current_sense;
pub mod flash;
pub mod motor;

use vstd::prelude::*;

verus! {

/// Number of actuated axes handled by one board (Orbita3d build).
pub const N_AXIS: usize = 3;

/// Longest time, in milliseconds, without a new watchdog counter or process data from
/// the EtherCAT master before the board stops.
pub const MAX_WATCHDOG_DOWN_TIME_MS: u64 = 100;

/// Revision of the board electronics; the Orbita3d gamma and PVT boards drive their
/// motors through DRV8316 stages with low-side current sensing.
#[derive(Debug, Clone, Copy, PartialEq, Eq, Structural)]
pub enum Electronics {
    Beta,
    Gamma,
    Pvt,
}

/// Dynamixel id used when no id has been stored yet.
pub const DYNAMIXEL_DEFAULT_ID: u8 = 42;

} // verus!
