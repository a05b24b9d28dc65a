//! The command words of the power/reset peripheral. The volatile stores
//! into the `RSTC` and `WDOG` registers are the machine-facing shell's;
//! every value written must carry the password in its upper byte.

use vstd::prelude::*;

verus! {

/// MMIO address of the reset-control register.
pub const RSTC: u32 = 0x3f10_001c;

/// MMIO address of the watchdog register.
pub const W_DOG: u32 = 0x3f10_0024;

/// The password without which the peripheral ignores a write.
pub const W_PASSWORD: u32 = 0x5a00_0000;

/// Mask clearing the reset-mode bits of the current `RSTC` value.
pub const W_CLR: u32 = 0xffff_ffcf;

/// Reset-mode bits requesting a full reset.
pub const W_FULL_RESET: u32 = 0x0000_0020;

/// The word to write into `WDOG`: the password over a timeout in ticks.
pub fn wdog_command(timeout_ticks: u32) -> (r: u32)
    ensures
        r == W_PASSWORD | timeout_ticks,
{
    W_PASSWORD | timeout_ticks
}

/// The word to write into `RSTC`, derived from its current value: the
/// reset-mode bits cleared, then the password and the full-reset request
/// or'd in.
pub fn rstc_command(current: u32) -> (r: u32)
    ensures
        r == (current & W_CLR) | W_PASSWORD | W_FULL_RESET,
{
    (current & W_CLR) | W_PASSWORD | W_FULL_RESET
}

} // verus!
