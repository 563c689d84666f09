//! The house light, driven through a PWM channel with inverted polarity.

use vstd::prelude::*;

verus! {

/// The period of the PWM channel, in nanoseconds.
pub const PWM_PERIOD: u32 = 500000;

/// The duty cycle for a brightness level, with whole-number division: the
/// light is fully on at level 255 and off at every level below.
pub open spec fn duty_cycle_spec(brightness: u8) -> int {
    PWM_PERIOD * (1 - brightness / 255)
}

/// The duty cycle to write for a brightness level.
pub fn duty_cycle(brightness: u8) -> (duty: u32)
    ensures
        duty == duty_cycle_spec(brightness),
        duty == if brightness == 255 { 0u32 } else { PWM_PERIOD },
{
    let full: u32 = (brightness / 255) as u32;
    assert(full == if brightness == 255 { 1u32 } else { 0u32 });
    PWM_PERIOD * (1 - full)
}

} // verus!
