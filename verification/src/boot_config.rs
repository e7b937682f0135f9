//! CRC-validated record selecting the active application slot.
//!
//! The boot-stage image reads this record once per boot to decide which slot
//! to run. A record whose stored checksum does not match its payload is
//! reported as an integrity failure, never acted on and never retried: the
//! medium does not change between retries, so callers fall back to the
//! default slot instead.

use vstd::prelude::*;

use crate::schema::{record_check, record_wf, seal_record, spec_seal};

verus! {

/// One of the fixed flash regions that can hold a bootable application image.
#[derive(Clone, Copy, PartialEq, Eq, Structural, Debug, Hash)]
pub enum SlotId {
    /// The first application slot.
    Slot0,
    /// The second application slot.
    Slot1,
}

/// The slot booted when no valid configuration record exists.
pub const DEFAULT_SLOT: SlotId = SlotId::Slot0;

/// The persisted boot configuration: which slot the boot stage hands control
/// to. Its integrity checksum lives in the stored record, not in the value.
#[derive(Clone, Copy, PartialEq, Eq, Structural, Debug)]
pub struct BootConfig {
    /// The slot the boot stage hands control to.
    pub active_slot: SlotId,
}

/// The stored configuration record did not pass its integrity check.
#[derive(Clone, Copy, PartialEq, Eq, Structural, Debug)]
pub struct IntegrityError;

/// The storage medium refused the write.
#[derive(Clone, Copy, PartialEq, Eq, Structural, Debug)]
pub struct StorageError;

/// The byte a slot is stored as.
pub open spec fn slot_code(s: SlotId) -> u8 {
    match s {
        SlotId::Slot0 => 0,
        SlotId::Slot1 => 1,
    }
}

/// The record that persists a slot choice: the slot byte, three padding zero
/// bytes, and the checksum.
pub open spec fn spec_encode_config(s: SlotId) -> Seq<u8> {
    spec_seal(seq![slot_code(s), 0u8, 0u8, 0u8])
}

/// The slot a stored region decodes to, or nothing when the region is not
/// exactly a well-formed record holding a slot byte and zero padding.
pub open spec fn spec_config_of(region: Seq<u8>) -> Option<SlotId> {
    if record_wf(region) && (region[0] == 0 || region[0] == 1) && region[1] == 0 && region[2] == 0
        && region[3] == 0 {
        Some(
            if region[0] == 1 {
                SlotId::Slot1
            } else {
                SlotId::Slot0
            },
        )
    } else {
        None
    }
}

/// Encoding a slot choice and decoding the stored bytes gives the same slot
/// back: an immediate read after a write sees no integrity error.
pub proof fn lemma_config_round_trip(s: SlotId)
    ensures
        spec_config_of(spec_encode_config(s)) == Some(s),
{
    let p = seq![slot_code(s), 0u8, 0u8, 0u8];
    crate::schema::lemma_seal_wf(p);
    assert(spec_encode_config(s)[0] == slot_code(s));
    assert(spec_encode_config(s)[1] == 0);
    assert(spec_encode_config(s)[2] == 0);
    assert(spec_encode_config(s)[3] == 0);
}

/// The non-volatile region holding the boot configuration record.
///
/// The store owns the raw bytes; at boot they are whatever the hardware kept,
/// torn writes included, so the store is built from arbitrary bytes and every
/// read checks the record's integrity.
pub struct BootConfigStore {
    region: Vec<u8>,
}

impl View for BootConfigStore {
    type V = Seq<u8>;

    closed spec fn view(&self) -> Seq<u8> {
        self.region@
    }
}

impl BootConfigStore {
    /// Adopts a region as read back from the storage medium.
    pub fn from_bytes(region: Vec<u8>) -> (s: Self)
        ensures
            s@ == region@,
    {
        BootConfigStore { region }
    }

    /// The raw bytes to hand back to the storage medium.
    pub fn bytes(&self) -> (r: &Vec<u8>)
        ensures
            r@ == self@,
    {
        &self.region
    }

    /// Reads the stored configuration. Fails with an integrity error exactly
    /// when the region does not decode to a slot choice; callers then fall
    /// back to the default slot.
    pub fn read(&self) -> (r: Result<BootConfig, IntegrityError>)
        ensures
            r is Ok <==> spec_config_of(self@) is Some,
            r matches Ok(c) ==> spec_config_of(self@) == Some(c.active_slot),
    {
        if record_check(self.region.as_slice()) {
            let code = self.region[0];
            if (code == 0 || code == 1) && self.region[1] == 0 && self.region[2] == 0
                && self.region[3] == 0 {
                let slot = if code == 1 {
                    SlotId::Slot1
                } else {
                    SlotId::Slot0
                };
                return Ok(BootConfig { active_slot: slot });
            }
        }
        Err(IntegrityError)
    }

    /// Rewrites the whole record so that it selects `slot`, storing the
    /// checksum together with the payload. The in-memory region cannot refuse
    /// a program operation, so the write always succeeds; an immediate `read`
    /// returns the same slot.
    pub fn write(&mut self, slot: SlotId) -> (r: Result<(), StorageError>)
        ensures
            r is Ok,
            final(self)@ == spec_encode_config(slot),
            spec_config_of(final(self)@) == Some(slot),
    {
        let payload: [u8; 4] = [
            match slot {
                SlotId::Slot0 => 0,
                SlotId::Slot1 => 1,
            },
            0,
            0,
            0,
        ];
        proof {
            assert(payload@ =~= seq![slot_code(slot), 0u8, 0u8, 0u8]);
            lemma_config_round_trip(slot);
        }
        self.region = seal_record(payload.as_slice());
        Ok(())
    }
}

} // verus!
