//! Non-blocking update-transfer protocol state machine.
//!
//! The update manager receives a new application image over a
//! connection-oriented byte stream. It is invoked once per scheduler tick and
//! never blocks: each invocation advances the session by whatever socket
//! event is current — a new connection, the bytes that happen to be
//! available, a close, or the mere passage of one tick — and returns an
//! optional action for the orchestrator to execute.
//!
//! A transfer is framed as a fixed twelve-byte header (magic word, payload
//! length, integrity tag, all little endian) followed by exactly that many
//! payload bytes. Payload bytes are appended to the staging image and folded
//! into a running CRC-32 register as they arrive; nothing larger than one
//! chunk is ever buffered besides the image itself. Once the declared length
//! has arrived the session verifies the folded checksum against the header
//! tag: a match commits, a mismatch aborts. A session that makes no progress
//! for a bounded number of ticks is forcibly aborted so the socket and the
//! staging region are released even if the peer disappears.
//!
//! Every transition is specified against `spec_step`, and the session reached
//! while bytes are flowing equals `session_after` of the concatenation of all
//! bytes fed so far — so the terminal state of a transfer does not depend on
//! how the stream was chunked across socket reads.

use vstd::bytes::{spec_u32_from_le_bytes, u32_from_le_bytes};
use vstd::prelude::*;
use vstd::slice::slice_subrange;

use crate::crc32::{crc32_fold, crc32_push_byte_exec, crc32_spec, lemma_fold_push, CRC32_INIT};

verus! {

/// Length in bytes of the fixed transfer header.
pub const HEADER_LEN: usize = 12;

/// Magic word opening every transfer header.
pub const HEADER_MAGIC: u32 = 0x5444_5055;

/// Largest plausible image: the size of an application slot. A header
/// declaring more (or zero) is malformed.
pub const MAX_IMAGE_LEN: u32 = 0x0008_0000;

/// Ticks without forward progress after which a session is forcibly aborted.
pub const STALL_TICKS_LIMIT: u32 = 120;

/// The protocol states of an update session.
#[derive(Clone, Copy, PartialEq, Eq, Structural, Debug)]
pub enum SessionState {
    /// No connection.
    Idle,
    /// Accumulating the fixed-size header.
    AwaitingHeader,
    /// Streaming payload bytes into the staging image.
    ReceivingPayload,
    /// All declared bytes arrived; the checksum decides.
    Verifying,
    /// The received image passed verification.
    Committed,
    /// The session failed or was abandoned.
    Aborted,
}

/// What the orchestrator must do after a step, when anything.
#[derive(Clone, Copy, PartialEq, Eq, Structural, Debug)]
pub enum ActionToTake {
    /// Abandon the session and restart unconditionally: the staging region
    /// holds a partial write.
    Reboot,
    /// The received image passed verification: commit the pending update,
    /// then restart.
    CompleteAndReboot,
}

/// One socket observation handed to the state machine.
#[derive(Debug)]
pub enum SocketEvent {
    /// An inbound connection became readable.
    Connected,
    /// The bytes currently available on the socket.
    Data(Vec<u8>),
    /// The connection closed or errored.
    Closed,
    /// One scheduler tick passed with nothing else to report.
    Tick,
}

/// The mathematical form of a socket observation.
pub enum EventModel {
    /// An inbound connection became readable.
    Connected,
    /// The bytes currently available on the socket.
    Data(Seq<u8>),
    /// The connection closed or errored.
    Closed,
    /// One scheduler tick passed with nothing else to report.
    Tick,
}

impl View for SocketEvent {
    type V = EventModel;

    open spec fn view(&self) -> EventModel {
        match self {
            SocketEvent::Connected => EventModel::Connected,
            SocketEvent::Data(d) => EventModel::Data(d@),
            SocketEvent::Closed => EventModel::Closed,
            SocketEvent::Tick => EventModel::Tick,
        }
    }
}

/// The mathematical form of an update session.
#[verifier::ext_equal]
pub struct SessionModel {
    /// The protocol state.
    pub state: SessionState,
    /// The header bytes accumulated so far (all twelve once parsed).
    pub header: Seq<u8>,
    /// The payload length the header declared.
    pub length: u32,
    /// The integrity tag the header declared.
    pub tag: u32,
    /// The payload bytes staged so far.
    pub image: Seq<u8>,
    /// Ticks since the last forward progress.
    pub stall: u32,
}

/// The magic word of a transfer header.
pub open spec fn header_magic(h: Seq<u8>) -> u32 {
    spec_u32_from_le_bytes(h.subrange(0, 4))
}

/// The payload length a transfer header declares.
pub open spec fn header_length(h: Seq<u8>) -> u32 {
    spec_u32_from_le_bytes(h.subrange(4, 8))
}

/// The integrity tag a transfer header declares.
pub open spec fn header_tag(h: Seq<u8>) -> u32 {
    spec_u32_from_le_bytes(h.subrange(8, 12))
}

/// A header is well formed when it opens with the magic word and declares a
/// plausible length.
pub open spec fn header_wf(h: Seq<u8>) -> bool {
    &&& h.len() == HEADER_LEN
    &&& header_magic(h) == HEADER_MAGIC
    &&& 1 <= header_length(h) <= MAX_IMAGE_LEN
}

/// The session just after a connection became readable.
pub open spec fn fresh_session() -> SessionModel {
    SessionModel {
        state: SessionState::AwaitingHeader,
        header: Seq::empty(),
        length: 0,
        tag: 0,
        image: Seq::empty(),
        stall: 0,
    }
}

/// The session with no connection and all transfer state released.
pub open spec fn idle_session() -> SessionModel {
    SessionModel {
        state: SessionState::Idle,
        header: Seq::empty(),
        length: 0,
        tag: 0,
        image: Seq::empty(),
        stall: 0,
    }
}

/// The same session, abandoned.
pub open spec fn abort_model(m: SessionModel) -> SessionModel {
    SessionModel {
        state: SessionState::Aborted,
        header: m.header,
        length: m.length,
        tag: m.tag,
        image: m.image,
        stall: m.stall,
    }
}

/// What abandoning a session asks of the orchestrator: a reboot exactly when
/// the staging region was partially written, nothing otherwise — a failed
/// transfer is not itself fatal.
pub open spec fn spec_abort_action(m: SessionModel) -> Option<ActionToTake> {
    if m.image.len() > 0 {
        Some(ActionToTake::Reboot)
    } else {
        None
    }
}

/// Payload bytes folded into a session that is receiving payload: up to the
/// declared remainder is staged, the rest of the chunk is ignored, and any
/// nonempty chunk counts as forward progress.
pub open spec fn spec_take_payload(m: SessionModel, d: Seq<u8>) -> SessionModel {
    let need = m.length - m.image.len();
    let taken = if d.len() < need {
        d.len() as int
    } else {
        need as int
    };
    let image2 = m.image + d.take(taken);
    SessionModel {
        state: if image2.len() == m.length {
            SessionState::Verifying
        } else {
            SessionState::ReceivingPayload
        },
        header: m.header,
        length: m.length,
        tag: m.tag,
        image: image2,
        stall: if d.len() > 0 {
            0
        } else {
            m.stall
        },
    }
}

/// A chunk of stream bytes folded into a session that is awaiting the header
/// or receiving payload.
pub open spec fn spec_accept_bytes(m: SessionModel, d: Seq<u8>) -> SessionModel {
    if m.state == SessionState::AwaitingHeader {
        let combined = m.header + d;
        if combined.len() < HEADER_LEN {
            SessionModel {
                state: SessionState::AwaitingHeader,
                header: combined,
                length: m.length,
                tag: m.tag,
                image: m.image,
                stall: if d.len() > 0 {
                    0
                } else {
                    m.stall
                },
            }
        } else {
            let h = combined.subrange(0, HEADER_LEN as int);
            let rest = combined.skip(HEADER_LEN as int);
            if !header_wf(h) {
                SessionModel {
                    state: SessionState::Aborted,
                    header: h,
                    length: m.length,
                    tag: m.tag,
                    image: m.image,
                    stall: 0,
                }
            } else {
                spec_take_payload(
                    SessionModel {
                        state: SessionState::ReceivingPayload,
                        header: h,
                        length: header_length(h),
                        tag: header_tag(h),
                        image: Seq::empty(),
                        stall: 0,
                    },
                    rest,
                )
            }
        }
    } else {
        spec_take_payload(m, d)
    }
}

/// One tick with no other event: one more stall tick, and a forcible abort
/// once the bound is reached.
pub open spec fn spec_tick(m: SessionModel) -> (SessionModel, Option<ActionToTake>) {
    if m.stall + 1 >= STALL_TICKS_LIMIT {
        (abort_model(m), spec_abort_action(m))
    } else {
        (
            SessionModel {
                state: m.state,
                header: m.header,
                length: m.length,
                tag: m.tag,
                image: m.image,
                stall: (m.stall + 1) as u32,
            },
            None,
        )
    }
}

/// The whole transition relation: from a session and a socket observation to
/// the next session and the action the orchestrator must take.
pub open spec fn spec_step(m: SessionModel, e: EventModel) -> (SessionModel, Option<ActionToTake>) {
    match m.state {
        SessionState::Idle => match e {
            EventModel::Connected => (fresh_session(), None),
            _ => (m, None),
        },
        SessionState::AwaitingHeader => match e {
            EventModel::Connected => (m, None),
            EventModel::Data(d) => (spec_accept_bytes(m, d), None),
            EventModel::Closed => (abort_model(m), spec_abort_action(m)),
            EventModel::Tick => spec_tick(m),
        },
        SessionState::ReceivingPayload => match e {
            EventModel::Connected => (m, None),
            EventModel::Data(d) => (spec_accept_bytes(m, d), None),
            EventModel::Closed => (abort_model(m), spec_abort_action(m)),
            EventModel::Tick => spec_tick(m),
        },
        SessionState::Verifying => if crc32_spec(m.image) == m.tag {
            (
                SessionModel {
                    state: SessionState::Committed,
                    header: m.header,
                    length: m.length,
                    tag: m.tag,
                    image: m.image,
                    stall: m.stall,
                },
                Some(ActionToTake::CompleteAndReboot),
            )
        } else {
            (abort_model(m), spec_abort_action(m))
        },
        SessionState::Committed => (m, None),
        SessionState::Aborted => match e {
            EventModel::Closed => (idle_session(), None),
            _ => (m, None),
        },
    }
}

/// The session reached from a fresh connection after the stream has delivered
/// exactly the bytes `b`, with no close and no stall.
pub open spec fn session_after(b: Seq<u8>) -> SessionModel {
    if b.len() < HEADER_LEN {
        SessionModel {
            state: SessionState::AwaitingHeader,
            header: b,
            length: 0,
            tag: 0,
            image: Seq::empty(),
            stall: 0,
        }
    } else {
        let h = b.subrange(0, HEADER_LEN as int);
        if !header_wf(h) {
            SessionModel {
                state: SessionState::Aborted,
                header: h,
                length: 0,
                tag: 0,
                image: Seq::empty(),
                stall: 0,
            }
        } else {
            let len = header_length(h);
            let rest = b.skip(HEADER_LEN as int);
            if rest.len() < len {
                SessionModel {
                    state: SessionState::ReceivingPayload,
                    header: h,
                    length: len,
                    tag: header_tag(h),
                    image: rest,
                    stall: 0,
                }
            } else {
                SessionModel {
                    state: SessionState::Verifying,
                    header: h,
                    length: len,
                    tag: header_tag(h),
                    image: rest.subrange(0, len as int),
                    stall: 0,
                }
            }
        }
    }
}

/// Feeding one more chunk to a session that the stream alone has driven moves
/// it to the session for the extended stream: the state machine only ever
/// depends on the concatenation of the bytes delivered, never on where the
/// stream was cut.
pub proof fn lemma_feed_extends(pre: Seq<u8>, d: Seq<u8>)
    requires
        session_after(pre).state != SessionState::Verifying,
    ensures
        spec_step(session_after(pre), EventModel::Data(d)).0 == session_after(pre + d),
        spec_step(session_after(pre), EventModel::Data(d)).1 is None,
{
    let m = session_after(pre);
    let b = pre + d;
    if pre.len() < HEADER_LEN {
        let combined = m.header + d;
        assert(combined =~= b);
        if b.len() < HEADER_LEN {
            assert(spec_accept_bytes(m, d) =~= session_after(b));
        } else {
            let h = b.subrange(0, HEADER_LEN as int);
            let rest = b.skip(HEADER_LEN as int);
            if !header_wf(h) {
                assert(spec_accept_bytes(m, d) =~= session_after(b));
            } else {
                let len = header_length(h);
                let mid = SessionModel {
                    state: SessionState::ReceivingPayload,
                    header: h,
                    length: len,
                    tag: header_tag(h),
                    image: Seq::empty(),
                    stall: 0,
                };
                let taken_m = spec_take_payload(mid, rest);
                assert(Seq::<u8>::empty() + rest.take(rest.len() as int) =~= rest);
                if rest.len() < len {
                    assert(taken_m =~= session_after(b));
                } else {
                    assert(Seq::<u8>::empty() + rest.take(len as int) =~= rest.subrange(
                        0,
                        len as int,
                    ));
                    assert(taken_m =~= session_after(b));
                }
                assert(spec_accept_bytes(m, d) == taken_m);
            }
        }
    } else {
        let h_pre = pre.subrange(0, HEADER_LEN as int);
        let h_b = b.subrange(0, HEADER_LEN as int);
        assert(h_pre =~= h_b);
        if !header_wf(h_pre) {
            assert(m.state == SessionState::Aborted);
            assert(m =~= session_after(b));
        } else {
            let len = header_length(h_pre);
            let rest_pre = pre.skip(HEADER_LEN as int);
            let rest_b = b.skip(HEADER_LEN as int);
            assert(rest_b =~= rest_pre + d);
            assert(rest_pre.len() < len);
            assert(m.state == SessionState::ReceivingPayload);
            let taken_m = spec_take_payload(m, d);
            let need = len - rest_pre.len();
            if d.len() < need {
                assert(rest_pre + d.take(d.len() as int) =~= rest_b);
                assert(taken_m =~= session_after(b));
            } else {
                assert(rest_pre + d.take(need as int) =~= rest_b.subrange(0, len as int));
                assert(taken_m =~= session_after(b));
            }
            assert(spec_accept_bytes(m, d) == taken_m);
        }
    }
}

/// The concatenation of a sequence of stream chunks.
pub open spec fn concat_chunks(chunks: Seq<Seq<u8>>) -> Seq<u8>
    decreases chunks.len(),
{
    if chunks.len() == 0 {
        Seq::empty()
    } else {
        chunks[0] + concat_chunks(chunks.drop_first())
    }
}

/// The session reached after feeding a sequence of chunks, one data event
/// each.
pub open spec fn feed_chunks(m: SessionModel, chunks: Seq<Seq<u8>>) -> SessionModel
    decreases chunks.len(),
{
    if chunks.len() == 0 {
        m
    } else {
        feed_chunks(spec_step(m, EventModel::Data(chunks[0])).0, chunks.drop_first())
    }
}

/// Feeding a stream chunk by chunk is feeding its concatenation: as long as
/// no proper prefix already completes the payload, the session reached
/// depends only on the bytes, not on the chunking.
pub proof fn lemma_feed_chunks(pre: Seq<u8>, chunks: Seq<Seq<u8>>)
    requires
        forall|i: int|
            0 <= i < chunks.len() ==> session_after(pre + concat_chunks(chunks.take(i))).state
                != SessionState::Verifying,
    ensures
        feed_chunks(session_after(pre), chunks) == session_after(pre + concat_chunks(chunks)),
    decreases chunks.len(),
{
    if chunks.len() == 0 {
        assert(pre + concat_chunks(chunks) =~= pre);
    } else {
        assert(chunks.take(0) =~= Seq::<Seq<u8>>::empty());
        assert(pre + concat_chunks(chunks.take(0)) =~= pre);
        lemma_feed_extends(pre, chunks[0]);
        let pre2 = pre + chunks[0];
        let rest = chunks.drop_first();
        assert forall|i: int| 0 <= i < rest.len() implies session_after(
            pre2 + concat_chunks(rest.take(i)),
        ).state != SessionState::Verifying by {
            assert(chunks.take(i + 1).drop_first() =~= rest.take(i));
            assert(concat_chunks(chunks.take(i + 1)) == chunks.take(i + 1)[0] + concat_chunks(
                chunks.take(i + 1).drop_first(),
            ));
            assert(pre2 + concat_chunks(rest.take(i)) =~= pre + concat_chunks(chunks.take(i + 1)));
        }
        lemma_feed_chunks(pre2, rest);
        assert(chunks.drop_first() =~= rest);
        assert(pre2 + concat_chunks(rest) =~= pre + concat_chunks(chunks));
    }
}

/// `CompleteAndReboot` is only ever requested out of `Verifying`, with the
/// staged image's checksum matching the header tag, and the session then
/// lands in `Committed`. No other transition can report a complete update.
pub proof fn lemma_commit_needs_verified_payload(m: SessionModel, e: EventModel)
    ensures
        spec_step(m, e).1 == Some(ActionToTake::CompleteAndReboot) ==> m.state
            == SessionState::Verifying && crc32_spec(m.image) == m.tag && spec_step(m, e).0.state
            == SessionState::Committed,
{
}

/// A transfer whose header declares length `L` and carries the checksum of a
/// payload of exactly `L` bytes reaches `Verifying` with exactly that payload
/// once the bytes have arrived — however they were chunked across socket
/// reads — and the next step commits and requests `CompleteAndReboot`.
pub proof fn theorem_commit_independent_of_chunking(
    chunks: Seq<Seq<u8>>,
    header: Seq<u8>,
    payload: Seq<u8>,
    e: EventModel,
)
    requires
        header_wf(header),
        header_length(header) == payload.len(),
        header_tag(header) == crc32_spec(payload),
        concat_chunks(chunks) == header + payload,
        forall|i: int| 0 <= i < chunks.len() ==> #[trigger] chunks[i].len() > 0,
    ensures
        feed_chunks(fresh_session(), chunks).state == SessionState::Verifying,
        feed_chunks(fresh_session(), chunks).image == payload,
        spec_step(feed_chunks(fresh_session(), chunks), e).0.state == SessionState::Committed,
        spec_step(feed_chunks(fresh_session(), chunks), e).1 == Some(
            ActionToTake::CompleteAndReboot,
        ),
{
    let b = header + payload;
    lemma_strict_prefixes_not_verifying(chunks, header, payload);
    lemma_feed_chunks(Seq::empty(), chunks);
    assert(Seq::<u8>::empty() + concat_chunks(chunks) =~= b);
    assert(fresh_session() =~= session_after(Seq::<u8>::empty()));
    let m = session_after(b);
    assert(b.subrange(0, HEADER_LEN as int) =~= header);
    assert(b.skip(HEADER_LEN as int) =~= payload);
    assert(m.image =~= payload);
}

/// A transfer that closes before the declared length has arrived aborts and
/// never reports `CompleteAndReboot`, however the delivered bytes were
/// chunked.
pub proof fn theorem_short_transfer_never_commits(
    chunks: Seq<Seq<u8>>,
    header: Seq<u8>,
    payload: Seq<u8>,
)
    requires
        header_wf(header),
        payload.len() < header_length(header),
        concat_chunks(chunks) == header + payload,
        forall|i: int| 0 <= i < chunks.len() ==> #[trigger] chunks[i].len() > 0,
    ensures
        feed_chunks(fresh_session(), chunks).state == SessionState::ReceivingPayload,
        spec_step(feed_chunks(fresh_session(), chunks), EventModel::Closed).0.state
            == SessionState::Aborted,
        spec_step(feed_chunks(fresh_session(), chunks), EventModel::Closed).1 != Some(
            ActionToTake::CompleteAndReboot,
        ),
{
    let b = header + payload;
    assert(b.subrange(0, HEADER_LEN as int) =~= header);
    assert(b.skip(HEADER_LEN as int) =~= payload);
    assert forall|i: int| 0 <= i < chunks.len() implies session_after(
        Seq::<u8>::empty() + concat_chunks(chunks.take(i)),
    ).state != SessionState::Verifying by {
        lemma_concat_chunks_prefix(chunks, i);
        lemma_prefix_not_verifying(header, payload, Seq::<u8>::empty() + concat_chunks(
            chunks.take(i),
        ));
    }
    lemma_feed_chunks(Seq::empty(), chunks);
    assert(Seq::<u8>::empty() + concat_chunks(chunks) =~= b);
    assert(fresh_session() =~= session_after(Seq::<u8>::empty()));
}

/// A prefix of a framed transfer that is missing payload bytes has not
/// reached `Verifying`.
proof fn lemma_prefix_not_verifying(header: Seq<u8>, payload: Seq<u8>, p: Seq<u8>)
    requires
        header_wf(header),
        payload.len() < header_length(header),
        p.len() <= header.len() + payload.len(),
        p =~= (header + payload).subrange(0, p.len() as int),
    ensures
        session_after(p).state != SessionState::Verifying,
{
    if p.len() >= HEADER_LEN {
        let b = header + payload;
        assert(p.subrange(0, HEADER_LEN as int) =~= header);
        assert(p.skip(HEADER_LEN as int).len() < header_length(header));
    }
}

/// The concatenation of the first `i` chunks is a prefix of the
/// concatenation of them all.
proof fn lemma_concat_chunks_prefix(chunks: Seq<Seq<u8>>, i: int)
    requires
        0 <= i <= chunks.len(),
    ensures
        concat_chunks(chunks.take(i)).len() <= concat_chunks(chunks).len(),
        concat_chunks(chunks.take(i)) =~= concat_chunks(chunks).subrange(
            0,
            concat_chunks(chunks.take(i)).len() as int,
        ),
    decreases chunks.len(),
{
    if chunks.len() == 0 || i == 0 {
        assert(chunks.take(0) =~= Seq::<Seq<u8>>::empty());
    } else {
        lemma_concat_chunks_prefix(chunks.drop_first(), i - 1);
        assert(chunks.take(i).drop_first() =~= chunks.drop_first().take(i - 1));
        assert(concat_chunks(chunks.take(i)) == chunks[0] + concat_chunks(
            chunks.drop_first().take(i - 1),
        ));
    }
}

/// While the chunks of an exactly-framed transfer are still arriving, the
/// session has not reached `Verifying`: every proper prefix is short of the
/// declared length.
proof fn lemma_strict_prefixes_not_verifying(chunks: Seq<Seq<u8>>, header: Seq<u8>, payload: Seq<u8>)
    requires
        header_wf(header),
        header_length(header) == payload.len(),
        concat_chunks(chunks) == header + payload,
        forall|i: int| 0 <= i < chunks.len() ==> #[trigger] chunks[i].len() > 0,
    ensures
        forall|i: int|
            0 <= i < chunks.len() ==> session_after(
                Seq::<u8>::empty() + concat_chunks(chunks.take(i)),
            ).state != SessionState::Verifying,
{
    let b = header + payload;
    assert forall|i: int| 0 <= i < chunks.len() implies session_after(
        Seq::<u8>::empty() + concat_chunks(chunks.take(i)),
    ).state != SessionState::Verifying by {
        lemma_concat_chunks_prefix(chunks, i);
        lemma_concat_remaining_nonempty(chunks, i);
        let p = Seq::<u8>::empty() + concat_chunks(chunks.take(i));
        assert(p =~= b.subrange(0, p.len() as int));
        if p.len() >= HEADER_LEN {
            assert(p.subrange(0, HEADER_LEN as int) =~= header);
            assert(p.skip(HEADER_LEN as int).len() < header_length(header));
        }
    }
}

/// With every chunk nonempty, the first `i` chunks concatenate to strictly
/// fewer bytes than all of them.
proof fn lemma_concat_remaining_nonempty(chunks: Seq<Seq<u8>>, i: int)
    requires
        0 <= i < chunks.len(),
        forall|j: int| 0 <= j < chunks.len() ==> #[trigger] chunks[j].len() > 0,
    ensures
        concat_chunks(chunks.take(i)).len() < concat_chunks(chunks).len(),
    decreases chunks.len(),
{
    if i == 0 {
        assert(chunks.take(0) =~= Seq::<Seq<u8>>::empty());
        lemma_concat_chunks_len_ge_first(chunks);
    } else {
        assert(chunks.take(i).drop_first() =~= chunks.drop_first().take(i - 1));
        assert(concat_chunks(chunks.take(i)) == chunks[0] + concat_chunks(
            chunks.drop_first().take(i - 1),
        ));
        lemma_concat_remaining_nonempty(chunks.drop_first(), i - 1);
    }
}

/// A nonempty chunk sequence concatenates to at least its first chunk.
proof fn lemma_concat_chunks_len_ge_first(chunks: Seq<Seq<u8>>)
    requires
        chunks.len() > 0,
    ensures
        concat_chunks(chunks).len() >= chunks[0].len(),
{
}

/// The live update session.
///
/// Owned exclusively by the update task; advanced once per scheduler tick by
/// `step`. The staged image lives here until the orchestrator acts on the
/// returned action.
pub struct UpdateManager {
    port: u16,
    state: SessionState,
    header: Vec<u8>,
    length: u32,
    tag: u32,
    image: Vec<u8>,
    crc_state: u32,
    stall: u32,
}

impl View for UpdateManager {
    type V = SessionModel;

    closed spec fn view(&self) -> SessionModel {
        SessionModel {
            state: self.state,
            header: self.header@,
            length: self.length,
            tag: self.tag,
            image: self.image@,
            stall: self.stall,
        }
    }
}

impl UpdateManager {
    /// The session's internal consistency: the running CRC register always
    /// equals the staged image folded from the initial value, the header
    /// buffer is only partial while the header is awaited, the stall counter
    /// is bounded, and the staged image respects the declared length.
    pub closed spec fn wf(self) -> bool {
        &&& self.crc_state == crc32_fold(CRC32_INIT, self.image@)
        &&& self.stall <= STALL_TICKS_LIMIT
        &&& match self.state {
            SessionState::AwaitingHeader => self.header@.len() < HEADER_LEN && self.image@.len()
                == 0,
            SessionState::ReceivingPayload => self.image@.len() < self.length,
            SessionState::Verifying => self.image@.len() == self.length,
            _ => true,
        }
    }

    /// The well-known port the update service listens on.
    pub closed spec fn spec_port(self) -> u16 {
        self.port
    }

    /// Creates an idle update manager for the given listening port.
    pub fn new(port: u16) -> (r: UpdateManager)
        ensures
            r@ == idle_session(),
            r.wf(),
            r.spec_port() == port,
    {
        let r = UpdateManager {
            port,
            state: SessionState::Idle,
            header: Vec::new(),
            length: 0,
            tag: 0,
            image: Vec::new(),
            crc_state: CRC32_INIT,
            stall: 0,
        };
        proof {
            assert(r@ =~= idle_session());
        }
        r
    }

    /// The port the caller should bind the listening socket to.
    pub fn port(&self) -> (r: u16)
        ensures
            r == self.spec_port(),
    {
        self.port
    }

    /// The staged image bytes, for the caller's flash write path once the
    /// session commits.
    pub fn image(&self) -> (r: &Vec<u8>)
        ensures
            r@ == self@.image,
    {
        &self.image
    }

    /// The protocol state the session is in.
    pub fn state(&self) -> (r: SessionState)
        ensures
            r == self@.state,
    {
        self.state
    }

    /// How many payload bytes have been staged so far.
    pub fn bytes_received(&self) -> (r: usize)
        ensures
            r == self@.image.len(),
    {
        self.image.len()
    }

    /// The payload length the header declared.
    pub fn expected_length(&self) -> (r: u32)
        ensures
            r == self@.length,
    {
        self.length
    }

    /// Appends stream bytes to the staging image, folding them into the
    /// running CRC register, up to the declared remainder; bytes beyond it
    /// are ignored.
    fn take_payload(&mut self, data: &[u8], start: usize)
        requires
            old(self).wf(),
            old(self)@.state == SessionState::ReceivingPayload,
            start <= data@.len(),
        ensures
            final(self).wf(),
            final(self)@ == spec_take_payload(old(self)@, data@.skip(start as int)),
            final(self).spec_port() == old(self).spec_port(),
    {
        let ghost d = data@.skip(start as int);
        let need: usize = (self.length as usize) - self.image.len();
        let avail: usize = data.len() - start;
        let taken: usize = if avail < need {
            avail
        } else {
            need
        };
        let mut i: usize = 0;
        while i < taken
            invariant
                i <= taken,
                start + taken <= data@.len(),
                data@.len() <= usize::MAX,
                taken <= self.length - old(self).image@.len(),
                self.image@ == old(self).image@ + data@.subrange(start as int, start + i),
                self.image@.len() <= self.length,
                self.crc_state == crc32_fold(CRC32_INIT, self.image@),
                self.header == old(self).header,
                self.length == old(self).length,
                self.tag == old(self).tag,
                self.state == old(self).state,
                self.stall == old(self).stall,
                self.port == old(self).port,
            decreases taken - i,
        {
            let b = data[start + i];
            proof {
                assert(data@.subrange(start as int, start + i + 1) =~= data@.subrange(
                    start as int,
                    start + i,
                ).push(b));
                lemma_fold_push(CRC32_INIT, self.image@, b);
            }
            self.image.push(b);
            self.crc_state = crc32_push_byte_exec(self.crc_state, b);
            i = i + 1;
        }
        if avail > 0 {
            self.stall = 0;
        }
        if self.image.len() == self.length as usize {
            self.state = SessionState::Verifying;
        }
        proof {
            assert(data@.subrange(start as int, start + taken) =~= d.take(taken as int));
            assert(final(self)@ =~= spec_take_payload(old(self)@, d));
        }
    }

    /// Folds one chunk of stream bytes into the session: header bytes first,
    /// then the payload.
    fn on_data(&mut self, d: &[u8])
        requires
            old(self).wf(),
            old(self)@.state == SessionState::AwaitingHeader || old(self)@.state
                == SessionState::ReceivingPayload,
        ensures
            final(self).wf(),
            final(self)@ == spec_accept_bytes(old(self)@, d@),
            final(self).spec_port() == old(self).spec_port(),
    {
        if self.state == SessionState::ReceivingPayload {
            self.take_payload(d, 0);
            proof {
                assert(d@.skip(0) =~= d@);
            }
            return ;
        }
        let ghost combined = old(self)@.header + d@;
        let hlen = self.header.len();
        let need: usize = HEADER_LEN - hlen;
        if d.len() < need {
            if d.len() > 0 {
                self.stall = 0;
            }
            let mut i: usize = 0;
            while i < d.len()
                invariant
                    i <= d@.len(),
                    self.header@ == old(self).header@ + d@.subrange(0, i as int),
                    d@.len() > 0 ==> self.stall == 0,
                    d@.len() == 0 ==> self.stall == old(self).stall,
                    self.image == old(self).image,
                    self.crc_state == old(self).crc_state,
                    self.length == old(self).length,
                    self.tag == old(self).tag,
                    self.state == old(self).state,
                    self.port == old(self).port,
                decreases d@.len() - i,
            {
                self.header.push(d[i]);
                i = i + 1;
            }
            proof {
                assert(self.header@ =~= combined);
                assert(final(self)@ =~= spec_accept_bytes(old(self)@, d@));
            }
            return ;
        }
        let mut i: usize = 0;
        while i < need
            invariant
                i <= need,
                need <= d@.len(),
                self.header@ == old(self).header@ + d@.subrange(0, i as int),
                old(self).header@.len() + need == HEADER_LEN,
                self.image == old(self).image,
                self.crc_state == old(self).crc_state,
                self.length == old(self).length,
                self.tag == old(self).tag,
                self.state == old(self).state,
                self.port == old(self).port,
            decreases need - i,
        {
            self.header.push(d[i]);
            i = i + 1;
        }
        self.stall = 0;
        proof {
            assert(self.header@ =~= combined.subrange(0, HEADER_LEN as int));
        }
        let magic = u32_from_le_bytes(slice_subrange(self.header.as_slice(), 0, 4));
        let length = u32_from_le_bytes(slice_subrange(self.header.as_slice(), 4, 8));
        let tag = u32_from_le_bytes(slice_subrange(self.header.as_slice(), 8, 12));
        if magic != HEADER_MAGIC || length == 0 || length > MAX_IMAGE_LEN {
            self.state = SessionState::Aborted;
            proof {
                assert(final(self)@ =~= spec_accept_bytes(old(self)@, d@));
            }
        } else {
            self.length = length;
            self.tag = tag;
            self.state = SessionState::ReceivingPayload;
            self.take_payload(d, need);
            proof {
                assert(d@.skip(need as int) =~= combined.skip(HEADER_LEN as int));
                assert(final(self)@ =~= spec_accept_bytes(old(self)@, d@));
            }
        }
    }

    /// Releases all transfer state and returns to `Idle`.
    fn reset_session(&mut self, state: SessionState)
        ensures
            final(self)@ == (SessionModel {
                state,
                header: Seq::empty(),
                length: 0,
                tag: 0,
                image: Seq::empty(),
                stall: 0,
            }),
            final(self).spec_port() == old(self).spec_port(),
            final(self).crc_register_initial(),
    {
        self.state = state;
        self.header = Vec::new();
        self.length = 0;
        self.tag = 0;
        self.image = Vec::new();
        self.crc_state = CRC32_INIT;
        self.stall = 0;
        proof {
            assert(final(self)@ =~= (SessionModel {
                state,
                header: Seq::empty(),
                length: 0,
                tag: 0,
                image: Seq::empty(),
                stall: 0,
            }));
        }
    }

    /// The CRC register holds the initial value (true of a session holding no
    /// staged bytes).
    closed spec fn crc_register_initial(self) -> bool {
        self.crc_state == crc32_fold(CRC32_INIT, Seq::<u8>::empty())
    }

    /// Advances the session by one socket observation and returns the action
    /// the orchestrator must take, when any. Never blocks: it folds in
    /// whatever the event carries and returns.
    pub fn step(&mut self, event: SocketEvent) -> (action: Option<ActionToTake>)
        requires
            old(self).wf(),
        ensures
            final(self).wf(),
            final(self)@ == spec_step(old(self)@, event@).0,
            action == spec_step(old(self)@, event@).1,
            final(self).spec_port() == old(self).spec_port(),
    {
        match self.state {
            SessionState::Idle => {
                if matches!(event, SocketEvent::Connected) {
                    self.reset_session(SessionState::AwaitingHeader);
                    proof {
                        assert(self@ =~= fresh_session());
                    }
                }
                None
            },
            SessionState::AwaitingHeader | SessionState::ReceivingPayload => match event {
                SocketEvent::Connected => None,
                SocketEvent::Data(d) => {
                    self.on_data(d.as_slice());
                    None
                },
                SocketEvent::Closed => {
                    self.state = SessionState::Aborted;
                    if self.image.len() > 0 {
                        Some(ActionToTake::Reboot)
                    } else {
                        None
                    }
                },
                SocketEvent::Tick => {
                    if self.stall >= STALL_TICKS_LIMIT - 1 {
                        self.state = SessionState::Aborted;
                        if self.image.len() > 0 {
                            Some(ActionToTake::Reboot)
                        } else {
                            None
                        }
                    } else {
                        self.stall = self.stall + 1;
                        None
                    }
                },
            },
            SessionState::Verifying => {
                let folded = self.crc_state ^ CRC32_INIT;
                if folded == self.tag {
                    self.state = SessionState::Committed;
                    Some(ActionToTake::CompleteAndReboot)
                } else {
                    self.state = SessionState::Aborted;
                    if self.image.len() > 0 {
                        Some(ActionToTake::Reboot)
                    } else {
                        None
                    }
                }
            },
            SessionState::Committed => None,
            SessionState::Aborted => {
                if matches!(event, SocketEvent::Closed) {
                    self.reset_session(SessionState::Idle);
                    proof {
                        assert(self@ =~= idle_session());
                    }
                }
                None
            },
        }
    }
}

} // verus!
