use bootcoord::boot_config::{BootConfigStore, SlotId};
use bootcoord::crc32::crc32;
use bootcoord::schema::{record_check, seal_record};
use bootcoord::update_status::{UpdateStatus, UpdateStatusStore};

#[test]
fn crc_of_standard_check_input() {
    // The well-known CRC-32 check value: the checksum of the ASCII digits
    // one through nine.
    let data = [0x31u8, 0x32, 0x33, 0x34, 0x35, 0x36, 0x37, 0x38, 0x39];
    assert_eq!(crc32(&data), 0xCBF4_3926);
}

#[test]
fn crc_of_empty_input_is_zero() {
    assert_eq!(crc32(&[]), 0);
}

#[test]
fn crc_differs_on_single_bit_flip() {
    let a = [0x00u8, 0x01, 0x02, 0x03];
    let b = [0x00u8, 0x01, 0x02, 0x02];
    assert_ne!(crc32(&a), crc32(&b));
}

#[test]
fn sealed_record_passes_the_check() {
    let record = seal_record(&[9, 8, 7, 6]);
    assert_eq!(record.len(), 8);
    assert_eq!(&record[0..4], &[9, 8, 7, 6]);
    assert!(record_check(record.as_slice()));
}

#[test]
fn tampered_record_fails_the_check() {
    let mut record = seal_record(&[9, 8, 7, 6]);
    record[1] ^= 0x40;
    assert!(!record_check(record.as_slice()));
    let short = [0u8; 7];
    assert!(!record_check(&short));
}

#[test]
fn config_write_then_read_returns_same_slot() {
    let mut store = BootConfigStore::from_bytes(Vec::new());
    assert!(store.write(SlotId::Slot0).is_ok());
    let cfg = store.read().expect("freshly written record must read back");
    assert_eq!(cfg.active_slot, SlotId::Slot0);

    assert!(store.write(SlotId::Slot1).is_ok());
    let cfg = store.read().expect("freshly written record must read back");
    assert_eq!(cfg.active_slot, SlotId::Slot1);
}

#[test]
fn config_read_fails_on_blank_region() {
    let store = BootConfigStore::from_bytes(Vec::new());
    assert!(store.read().is_err());
    let erased = BootConfigStore::from_bytes(vec![0xFF; 8]);
    assert!(erased.read().is_err());
}

#[test]
fn config_read_fails_on_torn_write() {
    let mut store = BootConfigStore::from_bytes(Vec::new());
    assert!(store.write(SlotId::Slot1).is_ok());
    let mut bytes = store.bytes().clone();
    bytes[0] ^= 0x01;
    let torn = BootConfigStore::from_bytes(bytes);
    assert!(torn.read().is_err());
}

#[test]
fn status_decays_to_all_false_on_unreadable_region() {
    let blank = UpdateStatusStore::from_bytes(Vec::new());
    assert_eq!(blank.get(), UpdateStatus { pending: false, valid: false });
    let noise = UpdateStatusStore::from_bytes(vec![0x55; 8]);
    assert_eq!(noise.get(), UpdateStatus { pending: false, valid: false });
}

#[test]
fn status_decays_on_disallowed_flag_bytes() {
    // A record whose checksum is fine but whose flag byte is not a flag.
    let record = seal_record(&[2, 0, 0, 0]);
    let store = UpdateStatusStore::from_bytes(record);
    assert_eq!(store.get(), UpdateStatus { pending: false, valid: false });
}

#[test]
fn status_setters_compose() {
    let mut store = UpdateStatusStore::from_bytes(Vec::new());
    store.set_pending();
    assert_eq!(store.get(), UpdateStatus { pending: true, valid: false });
    store.set_valid();
    assert_eq!(store.get(), UpdateStatus { pending: true, valid: true });
    store.clear_pending();
    assert_eq!(store.get(), UpdateStatus { pending: false, valid: true });
    store.clear();
    assert_eq!(store.get(), UpdateStatus { pending: false, valid: false });
    store.commit();
    assert_eq!(store.get(), UpdateStatus { pending: true, valid: true });
}

#[test]
fn clear_twice_equals_clear_once() {
    let mut once = UpdateStatusStore::from_bytes(vec![0xAA; 8]);
    once.set_pending();
    once.clear();
    let bytes_once = once.bytes().clone();
    let status_once = once.get();

    let mut twice = UpdateStatusStore::from_bytes(vec![0xAA; 8]);
    twice.set_pending();
    twice.clear();
    twice.clear();
    assert_eq!(twice.bytes().clone(), bytes_once);
    assert_eq!(twice.get(), status_once);
    assert_eq!(status_once, UpdateStatus { pending: false, valid: false });
}

#[test]
fn status_survives_its_own_bytes() {
    let mut store = UpdateStatusStore::from_bytes(Vec::new());
    store.set_pending();
    let persisted = store.bytes().clone();
    let reloaded = UpdateStatusStore::from_bytes(persisted);
    assert_eq!(reloaded.get(), UpdateStatus { pending: true, valid: false });
}
