use bootcoord::manual_trigger::{ManualTrigger, DEBOUNCE_SAMPLES};
use bootcoord::update_status::{UpdateStatus, UpdateStatusStore};

#[test]
fn fires_once_after_the_debounce_run() {
    let mut trigger = ManualTrigger::new();
    for _ in 0..(DEBOUNCE_SAMPLES - 1) {
        assert!(!trigger.sample(true));
    }
    assert!(trigger.sample(true));
    // Holding the input longer does not fire again.
    for _ in 0..10 {
        assert!(!trigger.sample(true));
    }
}

#[test]
fn bouncing_input_never_fires() {
    let mut trigger = ManualTrigger::new();
    for _ in 0..20 {
        for _ in 0..(DEBOUNCE_SAMPLES - 1) {
            assert!(!trigger.sample(true));
        }
        assert!(!trigger.sample(false));
    }
}

#[test]
fn release_rearms_the_trigger() {
    let mut trigger = ManualTrigger::new();
    for _ in 0..(DEBOUNCE_SAMPLES - 1) {
        assert!(!trigger.sample(true));
    }
    assert!(trigger.sample(true));
    assert!(!trigger.sample(false));
    for _ in 0..(DEBOUNCE_SAMPLES - 1) {
        assert!(!trigger.sample(true));
    }
    assert!(trigger.sample(true));
}

#[test]
fn firing_requests_an_update_cycle() {
    // What the firmware does when the trigger fires: mark an update pending;
    // the software reset then re-enters the boot-stage image.
    let mut trigger = ManualTrigger::new();
    let mut fired = false;
    let mut status = UpdateStatusStore::from_bytes(Vec::new());
    for _ in 0..DEBOUNCE_SAMPLES {
        if trigger.sample(true) {
            status.set_pending();
            fired = true;
        }
    }
    assert!(fired);
    assert_eq!(status.get(), UpdateStatus { pending: true, valid: false });
}
