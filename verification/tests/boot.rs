use bootcoord::boot_config::{BootConfig, BootConfigStore, IntegrityError, SlotId, DEFAULT_SLOT};
use bootcoord::device_info::DeviceInfo;
use bootcoord::orchestrator::{apply_action, boot_decision, BootOutcome};
use bootcoord::reset_reason::{
    classify, ResetReason, RESET_FLAG_BROWNOUT, RESET_FLAG_INDEPENDENT_WATCHDOG, RESET_FLAG_LOW_POWER,
    RESET_FLAG_PIN, RESET_FLAG_POWER_ON, RESET_FLAG_SOFTWARE, RESET_FLAG_WINDOW_WATCHDOG,
};
use bootcoord::update_manager::ActionToTake;
use bootcoord::update_status::{UpdateStatus, UpdateStatusStore};

fn store_with(pending: bool, valid: bool) -> UpdateStatusStore {
    let mut store = UpdateStatusStore::from_bytes(Vec::new());
    match (pending, valid) {
        (false, false) => store.clear(),
        (true, false) => store.set_pending(),
        (false, true) => {
            store.set_valid();
            store.clear_pending();
        }
        (true, true) => store.commit(),
    }
    assert_eq!(store.get(), UpdateStatus { pending, valid });
    store
}

#[test]
fn classify_each_flag() {
    assert_eq!(classify(RESET_FLAG_POWER_ON), ResetReason::PowerOn);
    assert_eq!(classify(RESET_FLAG_BROWNOUT), ResetReason::Brownout);
    assert_eq!(classify(RESET_FLAG_SOFTWARE), ResetReason::SoftwareReset);
    assert_eq!(classify(RESET_FLAG_INDEPENDENT_WATCHDOG), ResetReason::Watchdog);
    assert_eq!(classify(RESET_FLAG_WINDOW_WATCHDOG), ResetReason::Watchdog);
    assert_eq!(classify(RESET_FLAG_LOW_POWER), ResetReason::LowPower);
    assert_eq!(classify(RESET_FLAG_PIN), ResetReason::Pin);
    assert_eq!(classify(0), ResetReason::Unknown);
}

#[test]
fn classify_prefers_the_specific_cause() {
    // A power-on latches the pin and brown-out flags too.
    assert_eq!(
        classify(RESET_FLAG_POWER_ON | RESET_FLAG_PIN | RESET_FLAG_BROWNOUT),
        ResetReason::PowerOn
    );
    // A software reset latches the pin flag too.
    assert_eq!(classify(RESET_FLAG_SOFTWARE | RESET_FLAG_PIN), ResetReason::SoftwareReset);
    assert_eq!(classify(RESET_FLAG_BROWNOUT | RESET_FLAG_PIN), ResetReason::Brownout);
    assert_eq!(
        classify(RESET_FLAG_INDEPENDENT_WATCHDOG | RESET_FLAG_PIN),
        ResetReason::Watchdog
    );
}

#[test]
fn boot_power_on_with_unresolved_pending_halts() {
    // Pending without valid and a reset that was not the expected software
    // reset: the interrupted update is abandoned and boot halts safely.
    let mut store = store_with(true, false);
    let outcome = boot_decision(ResetReason::PowerOn, &mut store);
    assert_eq!(outcome, BootOutcome::HaltSafe);
    assert_eq!(store.get(), UpdateStatus { pending: false, valid: false });
}

#[test]
fn boot_software_reset_with_committed_update_proceeds() {
    let mut store = store_with(true, true);
    let outcome = boot_decision(ResetReason::SoftwareReset, &mut store);
    assert_eq!(outcome, BootOutcome::FirstBootAfterCommit);
    assert_eq!(store.get(), UpdateStatus { pending: true, valid: true });
}

#[test]
fn boot_software_reset_with_pending_commits() {
    let mut store = store_with(true, false);
    let outcome = boot_decision(ResetReason::SoftwareReset, &mut store);
    assert_eq!(outcome, BootOutcome::CommitAndReset);
    assert_eq!(store.get(), UpdateStatus { pending: true, valid: true });
}

#[test]
fn boot_always_lands_in_a_terminal_state() {
    // Every reachable flag pair, against every classified reason: the
    // outcome is one of the four defined ones and the flags left behind are
    // one of the three terminal states.
    let reasons = [
        ResetReason::PowerOn,
        ResetReason::Pin,
        ResetReason::Watchdog,
        ResetReason::SoftwareReset,
        ResetReason::LowPower,
        ResetReason::Brownout,
        ResetReason::Unknown,
    ];
    for &reason in reasons.iter() {
        for &pending in [false, true].iter() {
            for &valid in [false, true].iter() {
                let mut store = store_with(pending, valid);
                let outcome = boot_decision(reason, &mut store);
                assert!(matches!(
                    outcome,
                    BootOutcome::HaltSafe
                        | BootOutcome::CommitAndReset
                        | BootOutcome::FirstBootAfterCommit
                        | BootOutcome::Normal
                ));
                let after = store.get();
                assert!(after.valid || !after.pending, "pending must imply valid after boot");
            }
        }
    }
}

#[test]
fn boot_normal_drops_stray_pending() {
    let mut store = store_with(true, true);
    let outcome = boot_decision(ResetReason::PowerOn, &mut store);
    assert_eq!(outcome, BootOutcome::Normal);
    assert_eq!(store.get(), UpdateStatus { pending: false, valid: true });
}

#[test]
fn apply_reboot_leaves_flags_alone() {
    let mut store = store_with(false, false);
    let before = store.bytes().clone();
    assert!(apply_action(&mut store, ActionToTake::Reboot));
    assert_eq!(store.bytes().clone(), before);
}

#[test]
fn apply_complete_marks_pending_and_valid() {
    let mut store = store_with(false, false);
    assert!(apply_action(&mut store, ActionToTake::CompleteAndReboot));
    assert_eq!(store.get(), UpdateStatus { pending: true, valid: true });
}

#[test]
fn device_info_uses_the_read_configuration() {
    let info = DeviceInfo::assemble(
        Ok(BootConfig { active_slot: SlotId::Slot1 }),
        ResetReason::SoftwareReset,
        0xDEAD_BEEF_0042,
    );
    assert_eq!(info.boot_slot, SlotId::Slot1);
    assert_eq!(info.reset_reason, ResetReason::SoftwareReset);
    assert_eq!(info.serial_number, 0xDEAD_BEEF_0042);
}

#[test]
fn device_info_falls_back_to_the_default_slot() {
    let info = DeviceInfo::assemble(Err(IntegrityError), ResetReason::PowerOn, 7);
    assert_eq!(info.boot_slot, DEFAULT_SLOT);
    assert_eq!(info.boot_slot, SlotId::Slot0);
}

#[test]
fn boot_flow_reads_config_on_first_boot() {
    // The committed image's first boot: flags are pending and valid, the
    // reset was the expected software reset, and the boot configuration read
    // feeds the device info report.
    let mut cfg = BootConfigStore::from_bytes(Vec::new());
    cfg.write(SlotId::Slot1).unwrap();
    let mut status = store_with(true, true);
    let outcome = boot_decision(ResetReason::SoftwareReset, &mut status);
    assert_eq!(outcome, BootOutcome::FirstBootAfterCommit);
    let info = DeviceInfo::assemble(cfg.read(), ResetReason::SoftwareReset, 1);
    assert_eq!(info.boot_slot, SlotId::Slot1);
}
