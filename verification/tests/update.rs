use bootcoord::crc32::crc32;
use bootcoord::orchestrator::{apply_action, boot_decision, BootOutcome};
use bootcoord::reset_reason::ResetReason;
use bootcoord::update_manager::{
    ActionToTake, SessionState, SocketEvent, UpdateManager, HEADER_MAGIC, MAX_IMAGE_LEN,
    STALL_TICKS_LIMIT,
};
use bootcoord::update_status::{UpdateStatus, UpdateStatusStore};

fn make_header(length: u32, tag: u32) -> Vec<u8> {
    let mut h = Vec::new();
    h.extend_from_slice(&HEADER_MAGIC.to_le_bytes());
    h.extend_from_slice(&length.to_le_bytes());
    h.extend_from_slice(&tag.to_le_bytes());
    h
}

fn sample_payload(len: usize) -> Vec<u8> {
    (0..len).map(|i| (i % 251) as u8).collect()
}

fn connected_manager() -> UpdateManager {
    let mut um = UpdateManager::new(9000);
    assert_eq!(um.state(), SessionState::Idle);
    assert_eq!(um.step(SocketEvent::Connected), None);
    assert_eq!(um.state(), SessionState::AwaitingHeader);
    um
}

#[test]
fn commit_with_all_bytes_at_once() {
    let payload = sample_payload(100);
    let tag = crc32(&payload);
    let mut transfer = make_header(100, tag);
    transfer.extend_from_slice(&payload);

    let mut um = connected_manager();
    assert_eq!(um.step(SocketEvent::Data(transfer)), None);
    assert_eq!(um.state(), SessionState::Verifying);
    assert_eq!(um.bytes_received(), 100);
    assert_eq!(um.expected_length(), 100);

    assert_eq!(um.step(SocketEvent::Tick), Some(ActionToTake::CompleteAndReboot));
    assert_eq!(um.state(), SessionState::Committed);
    assert_eq!(um.image().as_slice(), payload.as_slice());
}

#[test]
fn commit_one_byte_at_a_time_matches() {
    // The same transfer delivered in one-byte reads lands in the same
    // terminal state as the all-at-once delivery.
    let payload = sample_payload(100);
    let tag = crc32(&payload);
    let mut transfer = make_header(100, tag);
    transfer.extend_from_slice(&payload);

    let mut um = connected_manager();
    for &b in transfer.iter() {
        assert_eq!(um.step(SocketEvent::Data(vec![b])), None);
    }
    assert_eq!(um.state(), SessionState::Verifying);
    assert_eq!(um.step(SocketEvent::Tick), Some(ActionToTake::CompleteAndReboot));
    assert_eq!(um.state(), SessionState::Committed);
    assert_eq!(um.image().as_slice(), payload.as_slice());
}

#[test]
fn close_one_byte_short_aborts_without_commit() {
    let payload = sample_payload(64);
    let tag = crc32(&payload);
    let mut transfer = make_header(64, tag);
    transfer.extend_from_slice(&payload[..63]);

    let mut um = connected_manager();
    assert_eq!(um.step(SocketEvent::Data(transfer)), None);
    assert_eq!(um.state(), SessionState::ReceivingPayload);
    assert_eq!(um.bytes_received(), 63);

    // The staging region holds a partial write, so the abort asks for a
    // plain reboot — never a completed update.
    let action = um.step(SocketEvent::Closed);
    assert_eq!(um.state(), SessionState::Aborted);
    assert_eq!(action, Some(ActionToTake::Reboot));
    assert_ne!(action, Some(ActionToTake::CompleteAndReboot));
}

#[test]
fn scenario_4096_byte_image_commits_and_flags_update() {
    let payload = sample_payload(4096);
    let tag = crc32(&payload);
    let header = make_header(4096, tag);

    let mut um = connected_manager();
    assert_eq!(um.step(SocketEvent::Data(header)), None);
    assert_eq!(um.step(SocketEvent::Data(payload.clone())), None);
    assert_eq!(um.state(), SessionState::Verifying);

    let action = um.step(SocketEvent::Tick);
    assert_eq!(action, Some(ActionToTake::CompleteAndReboot));

    // The orchestrator marks the update pending and valid before it issues
    // the reset, and the next boot (a software reset) sees the committed
    // flags.
    let mut status = UpdateStatusStore::from_bytes(Vec::new());
    assert!(apply_action(&mut status, action.unwrap()));
    assert_eq!(status.get(), UpdateStatus { pending: true, valid: true });
    let outcome = boot_decision(ResetReason::SoftwareReset, &mut status);
    assert_eq!(outcome, BootOutcome::FirstBootAfterCommit);
}

#[test]
fn corrupt_payload_aborts_with_reboot() {
    let payload = sample_payload(32);
    let tag = crc32(&payload);
    let mut corrupted = payload.clone();
    corrupted[16] ^= 0xFF;
    let mut transfer = make_header(32, tag);
    transfer.extend_from_slice(&corrupted);

    let mut um = connected_manager();
    assert_eq!(um.step(SocketEvent::Data(transfer)), None);
    assert_eq!(um.state(), SessionState::Verifying);
    assert_eq!(um.step(SocketEvent::Tick), Some(ActionToTake::Reboot));
    assert_eq!(um.state(), SessionState::Aborted);
}

#[test]
fn bad_magic_aborts_without_action() {
    let mut header = make_header(64, 0);
    header[0] ^= 0xFF;
    let mut um = connected_manager();
    assert_eq!(um.step(SocketEvent::Data(header)), None);
    assert_eq!(um.state(), SessionState::Aborted);
    // Nothing reached the staging region, so no reboot is requested, and
    // closing the dead connection releases the session.
    assert_eq!(um.step(SocketEvent::Closed), None);
    assert_eq!(um.state(), SessionState::Idle);
}

#[test]
fn zero_length_is_malformed() {
    let header = make_header(0, 0);
    let mut um = connected_manager();
    assert_eq!(um.step(SocketEvent::Data(header)), None);
    assert_eq!(um.state(), SessionState::Aborted);
}

#[test]
fn implausible_length_is_malformed() {
    let header = make_header(MAX_IMAGE_LEN + 1, 0);
    let mut um = connected_manager();
    assert_eq!(um.step(SocketEvent::Data(header)), None);
    assert_eq!(um.state(), SessionState::Aborted);
}

#[test]
fn close_before_any_payload_needs_no_reboot() {
    let mut um = connected_manager();
    assert_eq!(um.step(SocketEvent::Data(vec![HEADER_MAGIC as u8])), None);
    assert_eq!(um.step(SocketEvent::Closed), None);
    assert_eq!(um.state(), SessionState::Aborted);
}

#[test]
fn stalled_session_is_forcibly_aborted() {
    let mut um = connected_manager();
    for _ in 0..(STALL_TICKS_LIMIT - 1) {
        assert_eq!(um.step(SocketEvent::Tick), None);
        assert_eq!(um.state(), SessionState::AwaitingHeader);
    }
    assert_eq!(um.step(SocketEvent::Tick), None);
    assert_eq!(um.state(), SessionState::Aborted);
}

#[test]
fn stalled_partial_payload_requests_reboot() {
    let payload = sample_payload(16);
    let tag = crc32(&payload);
    let mut transfer = make_header(16, tag);
    transfer.extend_from_slice(&payload[..8]);

    let mut um = connected_manager();
    assert_eq!(um.step(SocketEvent::Data(transfer)), None);
    assert_eq!(um.state(), SessionState::ReceivingPayload);
    for _ in 0..(STALL_TICKS_LIMIT - 1) {
        assert_eq!(um.step(SocketEvent::Tick), None);
    }
    assert_eq!(um.step(SocketEvent::Tick), Some(ActionToTake::Reboot));
    assert_eq!(um.state(), SessionState::Aborted);
}

#[test]
fn progress_resets_the_stall_clock() {
    let payload = sample_payload(4);
    let tag = crc32(&payload);
    let mut transfer = make_header(4, tag);
    transfer.extend_from_slice(&payload);

    let mut um = connected_manager();
    for &b in transfer.iter() {
        for _ in 0..(STALL_TICKS_LIMIT - 2) {
            assert_eq!(um.step(SocketEvent::Tick), None);
        }
        assert_eq!(um.step(SocketEvent::Data(vec![b])), None);
    }
    assert_eq!(um.state(), SessionState::Verifying);
    assert_eq!(um.step(SocketEvent::Tick), Some(ActionToTake::CompleteAndReboot));
}

#[test]
fn bytes_beyond_the_declared_length_are_ignored() {
    let payload = sample_payload(20);
    let tag = crc32(&payload);
    let mut transfer = make_header(20, tag);
    transfer.extend_from_slice(&payload);
    transfer.extend_from_slice(&[0xEE; 40]);

    let mut um = connected_manager();
    assert_eq!(um.step(SocketEvent::Data(transfer)), None);
    assert_eq!(um.state(), SessionState::Verifying);
    assert_eq!(um.bytes_received(), 20);
    assert_eq!(um.step(SocketEvent::Tick), Some(ActionToTake::CompleteAndReboot));
    assert_eq!(um.image().as_slice(), payload.as_slice());
}

#[test]
fn a_new_connection_can_follow_an_aborted_session() {
    let mut um = connected_manager();
    let mut bad = make_header(8, 0);
    bad[0] ^= 0xFF;
    assert_eq!(um.step(SocketEvent::Data(bad)), None);
    assert_eq!(um.state(), SessionState::Aborted);
    assert_eq!(um.step(SocketEvent::Closed), None);
    assert_eq!(um.state(), SessionState::Idle);

    let payload = sample_payload(8);
    let tag = crc32(&payload);
    let mut transfer = make_header(8, tag);
    transfer.extend_from_slice(&payload);
    assert_eq!(um.step(SocketEvent::Connected), None);
    assert_eq!(um.step(SocketEvent::Data(transfer)), None);
    assert_eq!(um.step(SocketEvent::Tick), Some(ActionToTake::CompleteAndReboot));
}

#[test]
fn idle_manager_ignores_stray_events() {
    let mut um = UpdateManager::new(9000);
    assert_eq!(um.step(SocketEvent::Data(vec![1, 2, 3])), None);
    assert_eq!(um.step(SocketEvent::Closed), None);
    assert_eq!(um.step(SocketEvent::Tick), None);
    assert_eq!(um.state(), SessionState::Idle);
    assert_eq!(um.port(), 9000);
}
