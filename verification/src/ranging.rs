//! Settings of the time-of-flight distance sensor.

use vstd::prelude::*;

verus! {

/// The timing budget of one measurement, in milliseconds, when none is
/// given.
pub fn default_budget() -> (budget: u32)
    ensures
        budget == 50,
{
    50
}

/// The pause between two measurements, in milliseconds, when none is
/// given: the sensor measures without a break.
pub fn default_interval() -> (interval: u32)
    ensures
        interval == 0,
{
    0
}

} // verus!
