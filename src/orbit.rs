//! The phase of satellites circling the body.
use vstd::prelude::*;

verus! {

/// Phase steps in one full turn; one step is a tenth of a slot, and the
/// turn holds thirty-six slots.
pub const STEPS_PER_TURN: u32 = 360;

/// Advances a satellite's phase by one step, wrapping to zero where a full
/// turn is reached.
pub fn advance_orbit_phase(phase: u32) -> (r: u32)
    ensures
        r == if phase + 1 >= STEPS_PER_TURN {
            0
        } else {
            phase + 1
        },
{
    if phase >= STEPS_PER_TURN - 1 {
        0
    } else {
        phase + 1
    }
}

} // verus!
