//! Shared layout of the persisted records.
//!
//! The boot-stage image and the application image must agree byte for byte on
//! how the boot configuration and the update status are stored, so the layout
//! lives in this one module and both records use it. A record is a fixed-size
//! unit: a four-byte payload followed by the little-endian CRC-32 checksum of
//! that payload. A record whose stored checksum does not match the checksum
//! recomputed over its payload — a torn write, an erased region, noise — is
//! never acted on.

use vstd::bytes::{spec_u32_from_le_bytes, spec_u32_to_le_bytes, u32_from_le_bytes};
use vstd::prelude::*;
use vstd::slice::slice_subrange;

use crate::crc32::{crc32, crc32_spec};

verus! {

/// Length in bytes of a record's payload.
pub const RECORD_PAYLOAD_LEN: usize = 4;

/// Length in bytes of a whole record: payload plus checksum.
pub const RECORD_LEN: usize = 8;

/// The payload bytes of a record.
pub open spec fn record_payload(r: Seq<u8>) -> Seq<u8> {
    r.subrange(0, RECORD_PAYLOAD_LEN as int)
}

/// The checksum stored after the payload.
pub open spec fn record_stored_tag(r: Seq<u8>) -> u32 {
    spec_u32_from_le_bytes(r.subrange(RECORD_PAYLOAD_LEN as int, RECORD_LEN as int))
}

/// A record is well formed when it has the fixed size and its stored checksum
/// matches the checksum of its payload.
pub open spec fn record_wf(r: Seq<u8>) -> bool {
    &&& r.len() == RECORD_LEN
    &&& record_stored_tag(r) == crc32_spec(record_payload(r))
}

/// The record that stores a given payload: the payload followed by its
/// checksum.
pub open spec fn spec_seal(p: Seq<u8>) -> Seq<u8>
    recommends
        p.len() == RECORD_PAYLOAD_LEN,
{
    p + spec_u32_to_le_bytes(crc32_spec(p))
}

/// A sealed record is well formed and stores exactly the payload it was
/// sealed with.
pub proof fn lemma_seal_wf(p: Seq<u8>)
    requires
        p.len() == RECORD_PAYLOAD_LEN,
    ensures
        record_wf(spec_seal(p)),
        record_payload(spec_seal(p)) == p,
{
    vstd::bytes::lemma_auto_spec_u32_to_from_le_bytes();
    let r = spec_seal(p);
    assert(record_payload(r) =~= p);
    assert(r.subrange(RECORD_PAYLOAD_LEN as int, RECORD_LEN as int) =~= spec_u32_to_le_bytes(
        crc32_spec(p),
    ));
}

/// Builds the record that persists a four-byte payload.
pub fn seal_record(p: &[u8]) -> (r: Vec<u8>)
    requires
        p@.len() == RECORD_PAYLOAD_LEN,
    ensures
        r@ == spec_seal(p@),
        record_wf(r@),
        record_payload(r@) == p@,
{
    let tag = crc32(p);
    let mut out = vstd::slice::slice_to_vec(p);
    let mut tag_bytes = vstd::bytes::u32_to_le_bytes(tag);
    out.append(&mut tag_bytes);
    proof {
        lemma_seal_wf(p@);
    }
    out
}

/// Checks a stored region against the record layout: the fixed size and a
/// matching checksum.
pub fn record_check(r: &[u8]) -> (ok: bool)
    ensures
        ok == record_wf(r@),
{
    if r.len() != RECORD_LEN {
        return false;
    }
    let payload = slice_subrange(r, 0, RECORD_PAYLOAD_LEN);
    let tag_bytes = slice_subrange(r, RECORD_PAYLOAD_LEN, RECORD_LEN);
    let stored = u32_from_le_bytes(tag_bytes);
    let computed = crc32(payload);
    stored == computed
}

} // verus!
