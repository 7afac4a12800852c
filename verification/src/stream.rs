//! The capture-stream state machine: queue/dequeue coordination against the
//! device through the buffer pool.
//!
//! The stream cycles `Created` -> `Streaming` <-> `Stopped` -> `Destroyed`.
//! Device I/O is external: every operation here is the decision half of one
//! device interaction. `start` and `stop` mark which slots the device owns
//! and say which stream controls to issue; one frame delivery is the pair
//! `prepare_next` (re-queue the previously delivered slot, then wait on the
//! device) and `complete_next` (apply the outcome of the wait). The driving
//! code performs the queue/dequeue/start/stop device calls only after the
//! corresponding decision here succeeded, and reports the outcome of the
//! wait back as a [`DequeueEvent`].

use vstd::prelude::*;
use vstd::arithmetic::div_mod::{
    lemma_add_mod_noop_right, lemma_mod_add_multiples_vanish, lemma_mod_division_less_than_divisor,
    lemma_mod_self_0, lemma_mod_sub_multiples_vanish, lemma_small_mod,
};
use crate::buffer::{is_queued, BufferDescriptor, MemoryKind};
use crate::pool::{AllocationError, BufferPool};

verus! {

/// Lifecycle states of a capture stream.
#[derive(Copy, Clone, Debug, PartialEq, Eq, Structural)]
pub enum StreamState {
    /// Pool allocated, not streaming yet.
    Created,
    /// The device is actively producing frames.
    Streaming,
    /// Streaming halted, pool intact; the stream may start again.
    Stopped,
    /// Terminal: the pool has been released.
    Destroyed,
}

/// Why a stream operation failed.
#[derive(Copy, Clone, Debug, PartialEq, Eq, Structural)]
pub enum StreamError {
    /// An underlying device operation failed with the given OS error code.
    Io { code: i32 },
    /// The configured wait timeout elapsed with no completed frame.
    Timeout,
    /// The device reported end of stream.
    Eof,
    /// The operation was issued in a state that does not allow it.
    InvalidState,
}

/// Per-frame metadata surfaced with every successful dequeue.
#[derive(Copy, Clone, Debug, PartialEq, Eq, Structural)]
pub struct FrameMetadata {
    /// Kernel-assigned frame counter; increases monotonically per stream,
    /// with gaps permitted on dropped frames.
    pub sequence: u32,
    /// Capture time in the device clock domain.
    pub timestamp: u64,
    /// Bitset of device-reported conditions.
    pub flags: u32,
    /// Payload bytes actually written into the buffer.
    pub bytes_used: usize,
    /// The pool slot the frame was captured into.
    pub buffer_index: usize,
}

/// The outcome the driving code observed while waiting on the device for a
/// completed buffer.
#[derive(Copy, Clone, Debug)]
pub enum DequeueEvent {
    /// The device completed a buffer and reported this metadata.
    Frame { sequence: u32, timestamp: u64, flags: u32, bytes_used: usize },
    /// The device reported end of stream.
    Eof,
    /// The configured wait timeout elapsed.
    Timeout,
    /// The wait failed with the given OS error code.
    Io { code: i32 },
}

/// Abstract state of a capture stream.
#[verifier::ext_equal]
pub struct StreamModel {
    /// Lifecycle state.
    pub state: StreamState,
    /// Memory-sharing kind of every slot.
    pub kind: MemoryKind,
    /// Which slots the device currently owns.
    pub queued: Seq<bool>,
    /// The slot delivered by the last frame, not yet re-queued.
    pub held: Option<int>,
    /// The next slot to be delivered, round-robin.
    pub rr: int,
    /// Whether a `prepare_next` awaits its `complete_next`.
    pub awaiting: bool,
    /// Live virtual-memory mappings owned by the pool.
    pub mappings: int,
    /// Open duplicated descriptors owned by the pool.
    pub descriptors: int,
}

/// Well-formedness of the abstract state: indices in range, device
/// ownership matching the lifecycle state, and resource totals determined
/// by kind, slot count, and lifecycle.
pub open spec fn model_wf(m: StreamModel) -> bool {
    &&& m.queued.len() >= 1
    &&& 0 <= m.rr < m.queued.len()
    &&& match m.held {
        Some(h) => 0 <= h < m.queued.len(),
        None => true,
    }
    &&& match m.state {
        StreamState::Streaming => {
            &&& forall|i: int|
                0 <= i < m.queued.len() ==> (#[trigger] m.queued[i] <==> m.held != Some(i))
            &&& (m.awaiting ==> m.held is None)
        },
        _ => {
            &&& forall|i: int| 0 <= i < m.queued.len() ==> !#[trigger] m.queued[i]
            &&& m.held is None
            &&& !m.awaiting
        },
    }
    &&& m.mappings == if m.kind == MemoryKind::Mapped && !(m.state is Destroyed) {
        m.queued.len() as int
    } else {
        0int
    }
    &&& m.descriptors == if m.kind == MemoryKind::Exported && !(m.state is Destroyed) {
        m.queued.len() as int
    } else {
        0int
    }
}

/// The state of a freshly constructed stream: pool allocated, nothing
/// queued, nothing delivered yet.
pub open spec fn init_model(kind: MemoryKind, count: int) -> StreamModel {
    StreamModel {
        state: StreamState::Created,
        kind,
        queued: Seq::new(count as nat, |i: int| false),
        held: None,
        rr: 0,
        awaiting: false,
        mappings: if kind == MemoryKind::Mapped {
            count
        } else {
            0int
        },
        descriptors: if kind == MemoryKind::Exported {
            count
        } else {
            0int
        },
    }
}

/// Whether `start` is allowed: only from `Created` or `Stopped`.
pub open spec fn can_start(m: StreamModel) -> bool {
    m.state is Created || m.state is Stopped
}

/// Effect of a successful `start`: every slot queued to the device,
/// streaming, deliveries restarting at slot zero.
pub open spec fn spec_start(m: StreamModel) -> StreamModel {
    StreamModel {
        state: StreamState::Streaming,
        queued: Seq::new(m.queued.len(), |i: int| true),
        held: None,
        rr: 0,
        awaiting: false,
        ..m
    }
}

/// Whether `stop` is allowed: any state but `Destroyed`.
pub open spec fn can_stop(m: StreamModel) -> bool {
    !(m.state is Destroyed)
}

/// Effect of a successful `stop`: streaming halted and every slot drained
/// back to the caller; from `Created` or `Stopped` it changes nothing.
pub open spec fn spec_stop(m: StreamModel) -> StreamModel {
    StreamModel {
        state: if m.state is Streaming {
            StreamState::Stopped
        } else {
            m.state
        },
        queued: Seq::new(m.queued.len(), |i: int| false),
        held: None,
        awaiting: false,
        ..m
    }
}

/// Effect of releasing the pool of a stream that is not streaming: the
/// terminal state, with no live mappings and no open descriptors.
pub open spec fn spec_release(m: StreamModel) -> StreamModel {
    StreamModel { state: StreamState::Destroyed, mappings: 0, descriptors: 0, ..m }
}

/// Effect of destruction from any state: equivalent to `stop` followed by
/// releasing the pool.
pub open spec fn spec_destroy(m: StreamModel) -> StreamModel {
    StreamModel {
        state: StreamState::Destroyed,
        queued: Seq::new(m.queued.len(), |i: int| false),
        held: None,
        awaiting: false,
        mappings: 0,
        descriptors: 0,
        ..m
    }
}

/// Whether `prepare_next` is allowed: streaming, with no wait outstanding.
pub open spec fn can_prepare(m: StreamModel) -> bool {
    m.state is Streaming && !m.awaiting
}

/// Effect of a successful `prepare_next`: the previously delivered slot
/// (if any) is re-queued to the device and the wait is outstanding.
pub open spec fn spec_prepare(m: StreamModel) -> StreamModel {
    StreamModel {
        queued: match m.held {
            Some(h) => m.queued.update(h, true),
            None => m.queued,
        },
        held: None,
        awaiting: true,
        ..m
    }
}

/// Whether `complete_next` is allowed: streaming, with the wait
/// outstanding.
pub open spec fn can_complete(m: StreamModel) -> bool {
    m.state is Streaming && m.awaiting
}

/// Effect of `complete_next` on a completed frame: the round-robin slot is
/// dequeued to the caller and deliveries advance by one slot.
pub open spec fn spec_frame(m: StreamModel) -> StreamModel {
    StreamModel {
        queued: m.queued.update(m.rr, false),
        held: Some(m.rr),
        rr: (m.rr + 1) % (m.queued.len() as int),
        awaiting: false,
        ..m
    }
}

/// Effect of `complete_next` when the wait ended without a frame (timeout,
/// end of stream, or an I/O failure): only the outstanding wait is cleared,
/// so the caller may retry.
pub open spec fn spec_wait_abort(m: StreamModel) -> StreamModel {
    StreamModel { awaiting: false, ..m }
}

/// The state-machine coordinating queue and dequeue against the device
/// through the buffer pool. Exclusive: one stream instance controls the
/// device's capture queue for its whole lifetime, and it is not internally
/// synchronized.
#[derive(Debug)]
pub struct CaptureStream {
    /// The pool of buffer slots this stream owns.
    pub pool: BufferPool,
    /// Lifecycle state.
    pub state: StreamState,
    /// The slot delivered by the last frame, not yet re-queued.
    pub held: Option<usize>,
    /// The next slot to be delivered, round-robin.
    pub rr: usize,
    /// Whether a `prepare_next` awaits its `complete_next`.
    pub awaiting: bool,
}

impl View for CaptureStream {
    type V = StreamModel;

    open spec fn view(&self) -> StreamModel {
        StreamModel {
            state: self.state,
            kind: self.pool.memory_kind,
            queued: Seq::new(
                self.pool.handles@.len(),
                |i: int| is_queued(self.pool.handles@[i]),
            ),
            held: match self.held {
                Some(h) => Some(h as int),
                None => None,
            },
            rr: self.rr as int,
            awaiting: self.awaiting,
            mappings: crate::buffer::mappings_in(self.pool.handles@),
            descriptors: crate::buffer::descriptors_in(self.pool.handles@),
        }
    }
}

impl CaptureStream {
    /// Stream invariant: the pool is well formed, released exactly in the
    /// terminal state, and the abstract state is well formed.
    pub open spec fn wf(self) -> bool {
        &&& self.pool.wf()
        &&& self.pool.released == (self.state is Destroyed)
        &&& model_wf(self@)
    }

    /// Constructs a stream over a freshly allocated pool of `buffer_count`
    /// slots of the given memory kind, against a device that reports
    /// `device_limit` as the largest count it grants and `buffer_length`
    /// bytes per buffer. Succeeds exactly when the count is at least one
    /// and within the limit.
    pub fn with_buffers(
        memory_kind: MemoryKind,
        buffer_count: usize,
        buffer_length: usize,
        device_limit: usize,
    ) -> (r: Result<CaptureStream, AllocationError>)
        ensures
            r is Ok <==> 1 <= buffer_count <= device_limit,
            r matches Ok(s) ==> s.wf() && s@ == init_model(memory_kind, buffer_count as int),
            r matches Err(e) ==> e == AllocationError::CountRejected,
    {
        let pool = match BufferPool::allocate(
            memory_kind,
            buffer_count,
            buffer_length,
            device_limit,
        ) {
            Ok(pool) => pool,
            Err(e) => {
                return Err(e);
            },
        };
        let s = CaptureStream { pool, state: StreamState::Created, held: None, rr: 0, awaiting: false };
        proof {
            s.pool.lemma_live_counts();
            assert(s@ =~= init_model(memory_kind, buffer_count as int));
        }
        Ok(s)
    }

    /// Transitions `Created`/`Stopped` to `Streaming`: queues every slot to
    /// the device and restarts deliveries at slot zero. The driving code
    /// then queues all buffers and issues the device start control; should
    /// the device reject that control, it reverts with `stop`, which drains
    /// the slots again. Refused with `InvalidState` while already
    /// `Streaming` or after destruction, changing nothing.
    pub fn start(&mut self) -> (r: Result<(), StreamError>)
        requires
            old(self).wf(),
        ensures
            final(self).wf(),
            can_start(old(self)@) ==> r is Ok && final(self)@ == spec_start(old(self)@),
            !can_start(old(self)@) ==> r == Err::<(), StreamError>(StreamError::InvalidState)
                && *final(self) == *old(self),
    {
        match self.state {
            StreamState::Created | StreamState::Stopped => {
                self.pool.set_all_queued(true);
                self.state = StreamState::Streaming;
                self.held = None;
                self.rr = 0;
                self.awaiting = false;
                proof {
                    self.pool.lemma_live_counts();
                    old(self).pool.lemma_live_counts();
                    assert(self@ =~= spec_start(old(self)@));
                }
                Ok(())
            },
            _ => Err(StreamError::InvalidState),
        }
    }

    /// Transitions `Streaming` to `Stopped`: the driving code issues the
    /// device stop control and drains still-queued buffers; every slot
    /// returns to the caller and the pool stays intact for a later `start`
    /// or for destruction. Idempotent when already `Created` or `Stopped`;
    /// refused with `InvalidState` only after destruction, changing
    /// nothing.
    pub fn stop(&mut self) -> (r: Result<(), StreamError>)
        requires
            old(self).wf(),
        ensures
            final(self).wf(),
            can_stop(old(self)@) ==> r is Ok && final(self)@ == spec_stop(old(self)@),
            !can_stop(old(self)@) ==> r == Err::<(), StreamError>(StreamError::InvalidState)
                && *final(self) == *old(self),
    {
        match self.state {
            StreamState::Destroyed => Err(StreamError::InvalidState),
            _ => {
                self.pool.set_all_queued(false);
                if let StreamState::Streaming = self.state {
                    self.state = StreamState::Stopped;
                }
                self.held = None;
                self.awaiting = false;
                proof {
                    self.pool.lemma_live_counts();
                    old(self).pool.lemma_live_counts();
                    assert(self@ =~= spec_stop(old(self)@));
                }
                Ok(())
            },
        }
    }

    /// The decision half of one frame delivery, taken before any device
    /// wait: re-queues the previously delivered slot (round-robin), leaving
    /// the wait outstanding. The driving code performs the device queue and
    /// dequeue-wait calls only after this succeeds; when the stream is not
    /// `Streaming` the operation is refused with `InvalidState`, nothing
    /// changes, and no device call is to be issued.
    pub fn prepare_next(&mut self) -> (r: Result<(), StreamError>)
        requires
            old(self).wf(),
        ensures
            final(self).wf(),
            can_prepare(old(self)@) ==> r is Ok && final(self)@ == spec_prepare(old(self)@),
            !can_prepare(old(self)@) ==> r == Err::<(), StreamError>(StreamError::InvalidState)
                && *final(self) == *old(self),
    {
        match self.state {
            StreamState::Streaming => {
                if self.awaiting {
                    return Err(StreamError::InvalidState);
                }
                if let Some(h) = self.held {
                    self.pool.set_queued(h, true);
                }
                self.held = None;
                self.awaiting = true;
                proof {
                    self.pool.lemma_live_counts();
                    old(self).pool.lemma_live_counts();
                    assert(self@ =~= spec_prepare(old(self)@));
                }
                Ok(())
            },
            _ => Err(StreamError::InvalidState),
        }
    }

    /// The completion half of one frame delivery: applies the outcome the
    /// driving code observed while waiting on the device. A completed
    /// frame dequeues the round-robin slot to the caller, returning the
    /// slot's descriptor — the caller's view of the buffer, valid only
    /// until the next `prepare_next` re-queues the slot — and its metadata,
    /// surfaced unconditionally: zero `bytes_used` or error flags are the
    /// caller's to judge. A timeout, end of stream, or I/O failure only
    /// clears the outstanding wait and surfaces the matching error, so the
    /// caller may retry or stop. Refused with `InvalidState` when no wait
    /// is outstanding, changing nothing.
    pub fn complete_next(&mut self, event: DequeueEvent) -> (r: Result<
        (BufferDescriptor, FrameMetadata),
        StreamError,
    >)
        requires
            old(self).wf(),
        ensures
            final(self).wf(),
            !can_complete(old(self)@) ==> r == Err::<(BufferDescriptor, FrameMetadata), StreamError>(
                StreamError::InvalidState,
            ) && *final(self) == *old(self),
            can_complete(old(self)@) ==> match event {
                DequeueEvent::Frame { sequence, timestamp, flags, bytes_used } => {
                    &&& r matches Ok((buf, meta))
                    &&& meta.sequence == sequence
                    &&& meta.timestamp == timestamp
                    &&& meta.flags == flags
                    &&& meta.bytes_used == bytes_used
                    &&& meta.buffer_index == old(self).rr
                    &&& buf.index == old(self).rr
                    &&& buf.length == crate::buffer::length_of(
                        old(self).pool.handles@[old(self).rr as int],
                    )
                    &&& buf.memory_kind == old(self)@.kind
                    &&& final(self)@ == spec_frame(old(self)@)
                },
                DequeueEvent::Eof => r == Err::<(BufferDescriptor, FrameMetadata), StreamError>(
                    StreamError::Eof,
                ) && final(self)@ == spec_wait_abort(old(self)@),
                DequeueEvent::Timeout => r == Err::<(BufferDescriptor, FrameMetadata), StreamError>(
                    StreamError::Timeout,
                ) && final(self)@ == spec_wait_abort(old(self)@),
                DequeueEvent::Io { code } => r == Err::<(BufferDescriptor, FrameMetadata), StreamError>(
                    (StreamError::Io { code }),
                ) && final(self)@ == spec_wait_abort(old(self)@),
            },
    {
        match self.state {
            StreamState::Streaming => {
                if !self.awaiting {
                    return Err(StreamError::InvalidState);
                }
                match event {
                    DequeueEvent::Frame { sequence, timestamp, flags, bytes_used } => {
                        let index = self.rr;
                        let count = self.pool.len();
                        let buf = self.pool.descriptor(index);
                        self.pool.set_queued(index, false);
                        self.held = Some(index);
                        self.rr = if index + 1 == count {
                            0
                        } else {
                            index + 1
                        };
                        self.awaiting = false;
                        proof {
                            if index + 1 == count {
                                lemma_mod_self_0(count as int);
                            } else {
                                lemma_small_mod((index + 1) as nat, count as nat);
                            }
                            self.pool.lemma_live_counts();
                            old(self).pool.lemma_live_counts();
                            assert(self@ =~= spec_frame(old(self)@));
                        }
                        Ok((buf, FrameMetadata { sequence, timestamp, flags, bytes_used, buffer_index: index }))
                    },
                    DequeueEvent::Eof => {
                        self.awaiting = false;
                        proof {
                            assert(self@ =~= spec_wait_abort(old(self)@));
                        }
                        Err(StreamError::Eof)
                    },
                    DequeueEvent::Timeout => {
                        self.awaiting = false;
                        proof {
                            assert(self@ =~= spec_wait_abort(old(self)@));
                        }
                        Err(StreamError::Timeout)
                    },
                    DequeueEvent::Io { code } => {
                        self.awaiting = false;
                        proof {
                            assert(self@ =~= spec_wait_abort(old(self)@));
                        }
                        Err(StreamError::Io { code })
                    },
                }
            },
            _ => Err(StreamError::InvalidState),
        }
    }

    /// Tears the stream down from any state: equivalent to `stop` followed
    /// by deallocating the pool. Every slot is drained, every mapping
    /// unmapped and every descriptor closed, exactly once; destruction must
    /// fully complete before the device handle it depends on is closed.
    /// Idempotent.
    pub fn destroy(&mut self)
        requires
            old(self).wf(),
        ensures
            final(self).wf(),
            final(self)@ == spec_destroy(old(self)@),
    {
        match self.state {
            StreamState::Destroyed => {},
            _ => {
                self.pool.set_all_queued(false);
            },
        }
        self.pool.deallocate();
        self.state = StreamState::Destroyed;
        self.held = None;
        self.awaiting = false;
        proof {
            self.pool.lemma_live_counts();
            assert(self@ =~= spec_destroy(old(self)@));
        }
    }

    /// Counts the live virtual-memory mappings the stream's pool still
    /// owns.
    pub fn live_mappings(&self) -> (r: usize)
        ensures
            r as int == self@.mappings,
    {
        self.pool.live_mappings()
    }

    /// Counts the open duplicated descriptors the stream's pool still
    /// owns.
    pub fn live_descriptors(&self) -> (r: usize)
        ensures
            r as int == self@.descriptors,
    {
        self.pool.live_descriptors()
    }

    /// The current lifecycle state.
    pub fn current_state(&self) -> (r: StreamState)
        ensures
            r == self@.state,
    {
        self.state
    }

    /// The number of buffer slots.
    pub fn buffer_count(&self) -> (r: usize)
        ensures
            r == self@.queued.len(),
    {
        self.pool.len()
    }
}

/// State-machine exclusivity: a successful `start` leaves the stream
/// `Streaming`, where a second `start` is refused until a `stop` succeeds,
/// after which `start` is allowed again.
pub proof fn lemma_start_exclusive(m: StreamModel)
    requires
        can_start(m),
    ensures
        !can_start(spec_start(m)),
        can_start(spec_stop(spec_start(m))),
{
}

/// Destruction from any state is exactly `stop` followed by releasing the
/// pool, and it leaves no live mappings and no open descriptors.
pub proof fn lemma_destroy_is_stop_then_release(m: StreamModel)
    ensures
        spec_destroy(m) == spec_release(spec_stop(m)),
        spec_destroy(m).mappings == 0,
        spec_destroy(m).descriptors == 0,
{
    assert(spec_destroy(m) =~= spec_release(spec_stop(m)));
}

/// A stream ready for its next frame delivery: streaming, well formed,
/// with no wait outstanding.
pub open spec fn ready(m: StreamModel) -> bool {
    m.state is Streaming && !m.awaiting && model_wf(m)
}

/// The state after `n` further successful frame deliveries, each one a
/// `prepare_next` followed by a `complete_next` with a completed frame.
pub open spec fn frames_advance(m: StreamModel, n: nat) -> StreamModel
    decreases n,
{
    if n == 0 {
        m
    } else {
        spec_frame(spec_prepare(frames_advance(m, (n - 1) as nat)))
    }
}

/// The buffer index delivered by the `j + 1`-th of those deliveries.
pub open spec fn delivered_index(m: StreamModel, j: nat) -> int {
    frames_advance(m, j).rr
}

/// One frame delivery preserves readiness and advances the round-robin
/// position by one slot.
pub proof fn lemma_next_preserves(m: StreamModel)
    requires
        ready(m),
    ensures
        ready(spec_frame(spec_prepare(m))),
        spec_frame(spec_prepare(m)).queued.len() == m.queued.len(),
        spec_frame(spec_prepare(m)).rr == (m.rr + 1) % (m.queued.len() as int),
        spec_frame(spec_prepare(m)).state == m.state,
        spec_frame(spec_prepare(m)).kind == m.kind,
{
    let p = spec_prepare(m);
    let f = spec_frame(p);
    assert(forall|i: int| 0 <= i < p.queued.len() ==> #[trigger] p.queued[i]);
    lemma_mod_division_less_than_divisor(m.rr + 1, m.queued.len() as int);
    assert(forall|i: int|
        0 <= i < f.queued.len() ==> (#[trigger] f.queued[i] <==> f.held != Some(i)));
}

/// After `n` successful frame deliveries the stream is still ready and the
/// round-robin position has advanced by `n` slots, modulo the buffer
/// count.
pub proof fn lemma_advance_rr(m: StreamModel, n: nat)
    requires
        ready(m),
    ensures
        ready(frames_advance(m, n)),
        frames_advance(m, n).queued.len() == m.queued.len(),
        frames_advance(m, n).rr == (m.rr + n) % (m.queued.len() as int),
    decreases n,
{
    let len = m.queued.len() as int;
    if n == 0 {
        lemma_small_mod(m.rr as nat, m.queued.len());
    } else {
        lemma_advance_rr(m, (n - 1) as nat);
        let prev = frames_advance(m, (n - 1) as nat);
        lemma_next_preserves(prev);
        lemma_add_mod_noop_right(1, m.rr + n - 1, len);
    }
}

/// A value in `[0, 2b)` reduced modulo `b` is itself, or itself less `b`.
proof fn lemma_mod_in_small_range(x: int, b: int)
    requires
        0 < b,
        0 <= x < 2 * b,
    ensures
        x % b == if x < b {
            x
        } else {
            x - b
        },
{
    if x < b {
        lemma_small_mod(x as nat, b as nat);
    } else {
        lemma_mod_sub_multiples_vanish(x, b);
        lemma_small_mod((x - b) as nat, b as nat);
    }
}

/// Round-robin: over `B` consecutive successful frame deliveries on a
/// ready stream with `B` buffers, the delivered indices are pairwise
/// distinct — every slot is visited exactly once before any repeats.
pub proof fn lemma_round_robin_distinct(m: StreamModel, i: nat, j: nat)
    requires
        ready(m),
        i < j < m.queued.len(),
    ensures
        delivered_index(m, i) != delivered_index(m, j),
{
    let len = m.queued.len() as int;
    lemma_advance_rr(m, i);
    lemma_advance_rr(m, j);
    lemma_mod_in_small_range(m.rr + i, len);
    lemma_mod_in_small_range(m.rr + j, len);
}

/// Round-robin periodicity: the delivered indices repeat with period equal
/// to the buffer count.
pub proof fn lemma_round_robin_period(m: StreamModel, j: nat)
    requires
        ready(m),
    ensures
        delivered_index(m, j + m.queued.len()) == delivered_index(m, j),
{
    let len = m.queued.len() as int;
    lemma_advance_rr(m, j);
    lemma_advance_rr(m, j + m.queued.len());
    lemma_mod_add_multiples_vanish(m.rr + j, len);
}

} // verus!
