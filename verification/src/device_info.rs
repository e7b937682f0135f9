//! Metadata reported to the update peer.
//!
//! A read-only snapshot assembled once at boot from the boot configuration,
//! the classified reset reason, and the device serial number. It is lent to
//! the update manager for reporting; it is never persisted.

use vstd::prelude::*;

use crate::boot_config::{BootConfig, IntegrityError, SlotId, DEFAULT_SLOT};
use crate::reset_reason::ResetReason;

verus! {

/// The boot-time snapshot reported to the update peer.
#[derive(Clone, Copy, PartialEq, Eq, Structural, Debug)]
pub struct DeviceInfo {
    /// The slot this boot runs from.
    pub boot_slot: SlotId,
    /// Why the device last reset.
    pub reset_reason: ResetReason,
    /// The device's serial number.
    pub serial_number: u64,
}

impl DeviceInfo {
    /// Assembles the snapshot. A configuration that failed its integrity
    /// check falls back to the default slot; it is never retried.
    pub fn assemble(
        config: Result<BootConfig, IntegrityError>,
        reset_reason: ResetReason,
        serial_number: u64,
    ) -> (r: DeviceInfo)
        ensures
            config matches Ok(c) ==> r.boot_slot == c.active_slot,
            config is Err ==> r.boot_slot == DEFAULT_SLOT,
            r.reset_reason == reset_reason,
            r.serial_number == serial_number,
    {
        let boot_slot = match config {
            Ok(c) => c.active_slot,
            Err(_) => DEFAULT_SLOT,
        };
        DeviceInfo { boot_slot, reset_reason, serial_number }
    }
}

} // verus!
