//! Boot/update orchestration.
//!
//! At boot, the orchestrator holds the reset reason and the persisted update
//! flags against each other and decides whether to proceed, commit a
//! just-flashed image, or halt in a safe loop. At runtime it executes the
//! action the update manager's state machine asks for. The caller performs
//! the hardware effects — the safe loop and the software reset — after the
//! decision is made; the flag mutations happen here, so the persisted state
//! is settled before any reset is issued.

use vstd::prelude::*;

use crate::reset_reason::ResetReason;
use crate::update_manager::ActionToTake;
use crate::update_status::{spec_encode_status, UpdateStatus, UpdateStatusStore};

verus! {

/// What a boot turns into.
#[derive(Clone, Copy, PartialEq, Eq, Structural, Debug)]
pub enum BootOutcome {
    /// An update was pending but the reset was not the expected software
    /// reset: a crash or power loss interrupted it. The flags are cleared and
    /// the caller must halt in a safe loop rather than trust the image.
    HaltSafe,
    /// An update was pending and the expected software reset arrived: the
    /// update is marked pending and valid simultaneously, and the caller must
    /// issue an immediate software reset so the committed configuration takes
    /// effect cleanly.
    CommitAndReset,
    /// The just-committed image's first boot: the caller reads the boot
    /// configuration, reports device info, and proceeds without re-triggering
    /// the commit.
    FirstBootAfterCommit,
    /// A normal boot: any stray pending flag has been dropped and the caller
    /// proceeds.
    Normal,
}

/// The outcome a boot decides on, from the reset reason and the persisted
/// flags.
pub open spec fn spec_boot_outcome(reason: ResetReason, st: UpdateStatus) -> BootOutcome {
    if st.pending && !st.valid {
        if reason == ResetReason::SoftwareReset {
            BootOutcome::CommitAndReset
        } else {
            BootOutcome::HaltSafe
        }
    } else if st.pending && st.valid {
        if reason == ResetReason::SoftwareReset {
            BootOutcome::FirstBootAfterCommit
        } else {
            BootOutcome::Normal
        }
    } else {
        BootOutcome::Normal
    }
}

/// The flags persisted by the boot decision.
pub open spec fn spec_boot_status(reason: ResetReason, st: UpdateStatus) -> UpdateStatus {
    match spec_boot_outcome(reason, st) {
        BootOutcome::HaltSafe => UpdateStatus { pending: false, valid: false },
        BootOutcome::CommitAndReset => UpdateStatus { pending: true, valid: true },
        BootOutcome::FirstBootAfterCommit => st,
        BootOutcome::Normal => UpdateStatus { pending: false, valid: st.valid },
    }
}

/// Every boot lands in exactly one of the defined outcomes, and the flags it
/// leaves behind are one of the three terminal states — `pending` is never
/// left set without `valid`. There is no fourth outcome.
pub proof fn lemma_boot_reaches_terminal_state(reason: ResetReason, st: UpdateStatus)
    ensures
        spec_boot_outcome(reason, st) == BootOutcome::HaltSafe || spec_boot_outcome(reason, st)
            == BootOutcome::CommitAndReset || spec_boot_outcome(reason, st)
            == BootOutcome::FirstBootAfterCommit || spec_boot_outcome(reason, st)
            == BootOutcome::Normal,
        spec_boot_outcome(reason, st) == BootOutcome::HaltSafe ==> spec_boot_status(reason, st)
            == (UpdateStatus { pending: false, valid: false }),
        spec_boot_outcome(reason, st) == BootOutcome::CommitAndReset ==> spec_boot_status(
            reason,
            st,
        ) == (UpdateStatus { pending: true, valid: true }),
        spec_boot_outcome(reason, st) == BootOutcome::FirstBootAfterCommit ==> spec_boot_status(
            reason,
            st,
        ) == (UpdateStatus { pending: true, valid: true }),
        spec_boot_outcome(reason, st) == BootOutcome::Normal ==> spec_boot_status(reason, st)
            == (UpdateStatus { pending: false, valid: st.valid }),
        spec_boot_status(reason, st).pending ==> spec_boot_status(reason, st).valid,
{
}

/// Decides the boot outcome and settles the persisted flags accordingly.
///
/// The caller then acts on the outcome: halts in a safe loop on `HaltSafe`,
/// issues the software reset on `CommitAndReset`, reports device info on
/// `FirstBootAfterCommit`, and proceeds on `Normal`.
pub fn boot_decision(reason: ResetReason, store: &mut UpdateStatusStore) -> (outcome: BootOutcome)
    ensures
        outcome == spec_boot_outcome(reason, old(store).status()),
        final(store).status() == spec_boot_status(reason, old(store).status()),
        final(store).status().pending ==> final(store).status().valid,
{
    let st = store.get();
    if st.pending && !st.valid {
        if matches!(reason, ResetReason::SoftwareReset) {
            store.commit();
            BootOutcome::CommitAndReset
        } else {
            store.clear();
            BootOutcome::HaltSafe
        }
    } else if st.pending && st.valid {
        if matches!(reason, ResetReason::SoftwareReset) {
            BootOutcome::FirstBootAfterCommit
        } else {
            store.clear_pending();
            BootOutcome::Normal
        }
    } else {
        if st.pending {
            store.clear_pending();
        }
        BootOutcome::Normal
    }
}

/// Executes an update-manager action on the persisted flags.
///
/// On `CompleteAndReboot` the flags are marked pending first and valid second
/// — pending is observably set before valid is asserted, so a crash between
/// the two record writes still leaves a defined flag combination for the next
/// boot. The returned value tells the caller to issue the unconditional
/// restart, which both actions require.
pub fn apply_action(store: &mut UpdateStatusStore, action: ActionToTake) -> (reboot: bool)
    ensures
        reboot,
        action == ActionToTake::CompleteAndReboot ==> final(store).status() == (UpdateStatus {
            pending: true,
            valid: true,
        }),
        action == ActionToTake::Reboot ==> final(store)@ == old(store)@,
{
    match action {
        ActionToTake::Reboot => true,
        ActionToTake::CompleteAndReboot => {
            store.set_pending();
            store.set_valid();
            true
        },
    }
}

} // verus!
