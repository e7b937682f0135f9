//! Persistent update flags surviving a reset.
//!
//! Two flags are kept in their own CRC-protected record, in a region distinct
//! from the boot configuration: `pending` (an update is in flight or awaiting
//! its first boot) and `valid` (the update has been committed). Reading never
//! fails: a region that does not decode to a defined flag combination — an
//! integrity failure or a torn write — decays to the all-false state, so every
//! consumer always sees one of the defined states. Each mutator rewrites the
//! whole record in one step, so a crash mid-update cannot leave a state
//! outside the defined set.

use vstd::prelude::*;

use crate::schema::{record_check, record_wf, seal_record, spec_seal};

verus! {

/// The persisted flag pair.
#[derive(Clone, Copy, PartialEq, Eq, Structural, Debug, Hash)]
pub struct UpdateStatus {
    /// An update is in flight or awaiting its first boot.
    pub pending: bool,
    /// The update has been committed.
    pub valid: bool,
}

/// The byte a flag is stored as.
pub open spec fn flag_code(b: bool) -> u8 {
    if b {
        1
    } else {
        0
    }
}

/// The record that persists a flag pair: both flags, two padding zero bytes,
/// and the checksum.
pub open spec fn spec_encode_status(st: UpdateStatus) -> Seq<u8> {
    spec_seal(seq![flag_code(st.pending), flag_code(st.valid), 0u8, 0u8])
}

/// The flag pair a stored region decodes to. A region that is not exactly a
/// well-formed record holding two flag bytes and zero padding decays to the
/// all-false state.
pub open spec fn spec_status_of(region: Seq<u8>) -> UpdateStatus {
    if record_wf(region) && (region[0] == 0 || region[0] == 1) && (region[1] == 0 || region[1]
        == 1) && region[2] == 0 && region[3] == 0 {
        UpdateStatus { pending: region[0] == 1, valid: region[1] == 1 }
    } else {
        UpdateStatus { pending: false, valid: false }
    }
}

/// Clearing, seen on the stored bytes: whatever was there before, the region
/// afterwards is the encoding of the all-false state.
pub open spec fn spec_clear(region: Seq<u8>) -> Seq<u8> {
    spec_encode_status(UpdateStatus { pending: false, valid: false })
}

/// Encoding a flag pair and decoding the stored bytes gives the same pair
/// back.
pub proof fn lemma_status_round_trip(st: UpdateStatus)
    ensures
        spec_status_of(spec_encode_status(st)) == st,
{
    let p = seq![flag_code(st.pending), flag_code(st.valid), 0u8, 0u8];
    crate::schema::lemma_seal_wf(p);
    assert(spec_encode_status(st)[0] == flag_code(st.pending));
    assert(spec_encode_status(st)[1] == flag_code(st.valid));
    assert(spec_encode_status(st)[2] == 0);
    assert(spec_encode_status(st)[3] == 0);
}

/// Clearing twice leaves the same stored bytes as clearing once.
pub proof fn lemma_clear_idempotent(region: Seq<u8>)
    ensures
        spec_clear(spec_clear(region)) == spec_clear(region),
        spec_status_of(spec_clear(region)) == (UpdateStatus { pending: false, valid: false }),
{
    lemma_status_round_trip(UpdateStatus { pending: false, valid: false });
}

/// The non-volatile region holding the update status record.
///
/// The store owns the raw bytes; at boot they are whatever the hardware kept,
/// torn writes included, so the store is built from arbitrary bytes and every
/// read goes through the decaying decoder.
pub struct UpdateStatusStore {
    region: Vec<u8>,
}

impl View for UpdateStatusStore {
    type V = Seq<u8>;

    closed spec fn view(&self) -> Seq<u8> {
        self.region@
    }
}

impl UpdateStatusStore {
    /// The flag pair currently stored, after decay.
    pub open spec fn status(self) -> UpdateStatus {
        spec_status_of(self@)
    }

    /// Adopts a region as read back from the storage medium.
    pub fn from_bytes(region: Vec<u8>) -> (s: Self)
        ensures
            s@ == region@,
    {
        UpdateStatusStore { region }
    }

    /// The raw bytes to hand back to the storage medium.
    pub fn bytes(&self) -> (r: &Vec<u8>)
        ensures
            r@ == self@,
    {
        &self.region
    }

    /// Reads the stored flag pair. Never fails: an unreadable or disallowed
    /// region decays to the all-false state.
    pub fn get(&self) -> (st: UpdateStatus)
        ensures
            st == self.status(),
    {
        if record_check(self.region.as_slice()) {
            let p = self.region[0];
            let v = self.region[1];
            if (p == 0 || p == 1) && (v == 0 || v == 1) && self.region[2] == 0 && self.region[3]
                == 0 {
                return UpdateStatus { pending: p == 1, valid: v == 1 };
            }
        }
        UpdateStatus { pending: false, valid: false }
    }

    /// Rewrites the whole record so that it stores `st`.
    fn write_status(&mut self, st: UpdateStatus)
        ensures
            final(self)@ == spec_encode_status(st),
            final(self).status() == st,
    {
        let payload: [u8; 4] = [if st.pending { 1 } else { 0 }, if st.valid { 1 } else { 0 }, 0, 0];
        proof {
            assert(payload@ =~= seq![flag_code(st.pending), flag_code(st.valid), 0u8, 0u8]);
            lemma_status_round_trip(st);
        }
        self.region = seal_record(payload.as_slice());
    }

    /// Marks an update as in flight, keeping `valid` as it was.
    pub fn set_pending(&mut self)
        ensures
            final(self)@ == spec_encode_status(
                UpdateStatus { pending: true, valid: old(self).status().valid },
            ),
            final(self).status() == (UpdateStatus {
                pending: true,
                valid: old(self).status().valid,
            }),
    {
        let st = self.get();
        self.write_status(UpdateStatus { pending: true, valid: st.valid });
    }

    /// Marks the in-flight update as committed, keeping `pending` as it was.
    pub fn set_valid(&mut self)
        ensures
            final(self)@ == spec_encode_status(
                UpdateStatus { pending: old(self).status().pending, valid: true },
            ),
            final(self).status() == (UpdateStatus {
                pending: old(self).status().pending,
                valid: true,
            }),
    {
        let st = self.get();
        self.write_status(UpdateStatus { pending: st.pending, valid: true });
    }

    /// Resets both flags: no update in flight, nothing committed.
    pub fn clear(&mut self)
        ensures
            final(self)@ == spec_clear(old(self)@),
            final(self).status() == (UpdateStatus { pending: false, valid: false }),
    {
        self.write_status(UpdateStatus { pending: false, valid: false });
    }

    /// Marks an update both pending and valid in one record write, so the two
    /// marks take effect simultaneously.
    pub fn commit(&mut self)
        ensures
            final(self)@ == spec_encode_status(UpdateStatus { pending: true, valid: true }),
            final(self).status() == (UpdateStatus { pending: true, valid: true }),
    {
        self.write_status(UpdateStatus { pending: true, valid: true });
    }

    /// Drops a stray `pending` flag, keeping `valid` as it was.
    pub fn clear_pending(&mut self)
        ensures
            final(self)@ == spec_encode_status(
                UpdateStatus { pending: false, valid: old(self).status().valid },
            ),
            final(self).status() == (UpdateStatus {
                pending: false,
                valid: old(self).status().valid,
            }),
    {
        let st = self.get();
        self.write_status(UpdateStatus { pending: false, valid: st.valid });
    }
}

} // verus!
