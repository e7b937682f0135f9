//! Reset-reason classification.
//!
//! The hardware keeps a latch of reset-cause flags that accumulates until it
//! is explicitly cleared. The caller reads and clears that latch exactly once
//! per boot and hands the captured bit pattern to the pure classifier here;
//! the resulting reason is immutable for the rest of the boot cycle. An
//! unrecognized pattern maps to a defined `Unknown` variant rather than
//! failing.

use vstd::prelude::*;

verus! {

/// Latch flag: brown-out reset.
pub const RESET_FLAG_BROWNOUT: u32 = 0x0200_0000;

/// Latch flag: reset from the external pin.
pub const RESET_FLAG_PIN: u32 = 0x0400_0000;

/// Latch flag: power-on reset.
pub const RESET_FLAG_POWER_ON: u32 = 0x0800_0000;

/// Latch flag: software-requested reset.
pub const RESET_FLAG_SOFTWARE: u32 = 0x1000_0000;

/// Latch flag: independent watchdog reset.
pub const RESET_FLAG_INDEPENDENT_WATCHDOG: u32 = 0x2000_0000;

/// Latch flag: window watchdog reset.
pub const RESET_FLAG_WINDOW_WATCHDOG: u32 = 0x4000_0000;

/// Latch flag: low-power management reset.
pub const RESET_FLAG_LOW_POWER: u32 = 0x8000_0000;

/// Why the device last reset.
#[derive(Clone, Copy, PartialEq, Eq, Structural, Debug, Hash)]
pub enum ResetReason {
    /// Power was applied.
    PowerOn,
    /// The external reset pin was asserted.
    Pin,
    /// A watchdog expired.
    Watchdog,
    /// The firmware requested the reset.
    SoftwareReset,
    /// The low-power management logic reset the device.
    LowPower,
    /// The supply voltage dropped below the brown-out threshold.
    Brownout,
    /// No recognized flag was latched.
    Unknown,
}

/// The reason a captured latch pattern classifies to.
///
/// Several flags latch together (a power-on also raises the pin and brown-out
/// flags), so the more specific causes are checked first: power-on, then
/// brown-out, then software, the watchdogs, low power, and the bare pin last.
pub open spec fn spec_classify(latch: u32) -> ResetReason {
    if latch & RESET_FLAG_POWER_ON != 0 {
        ResetReason::PowerOn
    } else if latch & RESET_FLAG_BROWNOUT != 0 {
        ResetReason::Brownout
    } else if latch & RESET_FLAG_SOFTWARE != 0 {
        ResetReason::SoftwareReset
    } else if latch & RESET_FLAG_INDEPENDENT_WATCHDOG != 0 {
        ResetReason::Watchdog
    } else if latch & RESET_FLAG_WINDOW_WATCHDOG != 0 {
        ResetReason::Watchdog
    } else if latch & RESET_FLAG_LOW_POWER != 0 {
        ResetReason::LowPower
    } else if latch & RESET_FLAG_PIN != 0 {
        ResetReason::Pin
    } else {
        ResetReason::Unknown
    }
}

/// Classifies a captured latch pattern.
pub fn classify(latch: u32) -> (r: ResetReason)
    ensures
        r == spec_classify(latch),
{
    if latch & RESET_FLAG_POWER_ON != 0 {
        ResetReason::PowerOn
    } else if latch & RESET_FLAG_BROWNOUT != 0 {
        ResetReason::Brownout
    } else if latch & RESET_FLAG_SOFTWARE != 0 {
        ResetReason::SoftwareReset
    } else if latch & RESET_FLAG_INDEPENDENT_WATCHDOG != 0 {
        ResetReason::Watchdog
    } else if latch & RESET_FLAG_WINDOW_WATCHDOG != 0 {
        ResetReason::Watchdog
    } else if latch & RESET_FLAG_LOW_POWER != 0 {
        ResetReason::LowPower
    } else if latch & RESET_FLAG_PIN != 0 {
        ResetReason::Pin
    } else {
        ResetReason::Unknown
    }
}

} // verus!
