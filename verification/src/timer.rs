//! The generic-timer arithmetic. Reading the counter and programming the
//! compare registers are privileged register accesses of the machine-facing
//! shell; the interval and the millisecond conversion are decided here.

use vstd::prelude::*;

verus! {

/// Counter ticks between two timer interrupts. The tick handler rearms the
/// timer-value register with this amount, a timeout relative to the current
/// counter.
pub const INTERVAL: u64 = 20_000_000;

/// Milliseconds since counter start: `ticks * 1000 / frequency`, or nothing
/// when the frequency register reads zero. The product must fit in 64 bits.
pub fn ms_from_ticks(ticks: u64, frequency: u64) -> (r: Option<u64>)
    requires
        ticks * 1000 <= u64::MAX,
    ensures
        frequency == 0 ==> r is None,
        frequency != 0 ==> r == Some((ticks * 1000 / (frequency as int)) as u64),
{
    if frequency == 0 {
        None
    } else {
        Some(ticks * 1000 / frequency)
    }
}

} // verus!
