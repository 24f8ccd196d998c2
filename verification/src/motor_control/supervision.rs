use vstd::prelude::*;

verus! {

/// Control loop ticks (one per millisecond) given to the motors to come to rest during a
/// fault reaction or a quick stop.
pub const EMERGENCY_STOP_RESPONSE_TICKS: usize = 7000;

/// One control loop tick of a fault reaction or a quick stop: the tick counter advances,
/// and the reaction is over once the motors are at rest (`at_rest`: all velocities and
/// torques small) after the allotted ticks, or in any case after twice as many.
pub open spec fn spec_emergency_stop_tick(counter: usize, at_rest: bool) -> (usize, bool) {
    let next = (counter + 1) as usize;
    (next, (at_rest && next >= EMERGENCY_STOP_RESPONSE_TICKS) || next >= 2
        * EMERGENCY_STOP_RESPONSE_TICKS)
}

/// Advances the tick counter of a fault reaction or quick stop and tells whether the
/// reaction is over.
pub fn emergency_stop_tick(counter: usize, at_rest: bool) -> (r: (usize, bool))
    requires
        counter < usize::MAX,
    ensures
        r == spec_emergency_stop_tick(counter, at_rest),
{
    let next = counter + 1;
    (next, (at_rest && next >= EMERGENCY_STOP_RESPONSE_TICKS) || next >= 2
        * EMERGENCY_STOP_RESPONSE_TICKS)
}

/// Communication status after a loop: the link is down exactly when this loop had an
/// error, and the outage timer restarts when an error follows a loop without one.
pub fn communication_status(error: bool, was_down: bool) -> (r: (bool, bool))
    ensures
        r.0 == error,
        r.1 == (error && !was_down),
{
    (error, error && !was_down)
}

/// A reaction always ends: within twice the allotted ticks whatever the motors do, and
/// not before the allotted ticks.
pub proof fn law_emergency_stop_bounded(counter: usize, at_rest: bool)
    requires
        counter < usize::MAX,
    ensures
        counter + 1 >= 2 * EMERGENCY_STOP_RESPONSE_TICKS ==> spec_emergency_stop_tick(
            counter,
            at_rest,
        ).1,
        counter + 1 < EMERGENCY_STOP_RESPONSE_TICKS ==> !spec_emergency_stop_tick(
            counter,
            at_rest,
        ).1,
{
}

} // verus!
