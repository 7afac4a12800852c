use v4l_core::buffer::MemoryKind;
use v4l_core::pool::{AllocationError, BufferPool};
use v4l_core::stream::{CaptureStream, DequeueEvent, StreamError, StreamState};

fn frame(sequence: u32) -> DequeueEvent {
    DequeueEvent::Frame { sequence, timestamp: 1_000 + sequence as u64, flags: 0, bytes_used: 4096 }
}

#[test]
fn pool_allocate_deallocate_no_leaked_mappings() {
    let mut pool = BufferPool::allocate(MemoryKind::Mapped, 4, 4096, 8).unwrap();
    assert_eq!(pool.len(), 4);
    assert_eq!(pool.live_mappings(), 4);
    assert_eq!(pool.live_descriptors(), 0);
    pool.deallocate();
    assert_eq!(pool.live_mappings(), 0);
    assert_eq!(pool.live_descriptors(), 0);
}

#[test]
fn pool_allocate_deallocate_no_leaked_descriptors() {
    let mut pool = BufferPool::allocate(MemoryKind::Exported, 3, 2048, 8).unwrap();
    assert_eq!(pool.live_descriptors(), 3);
    assert_eq!(pool.live_mappings(), 0);
    pool.deallocate();
    assert_eq!(pool.live_descriptors(), 0);
}

#[test]
fn pool_user_pointer_owns_nothing() {
    let mut pool = BufferPool::allocate(MemoryKind::UserPointer, 2, 1024, 8).unwrap();
    assert_eq!(pool.live_mappings(), 0);
    assert_eq!(pool.live_descriptors(), 0);
    pool.deallocate();
    assert_eq!(pool.live_mappings(), 0);
}

#[test]
fn pool_rejects_zero_and_excessive_counts() {
    assert_eq!(
        BufferPool::allocate(MemoryKind::Mapped, 0, 4096, 8).unwrap_err(),
        AllocationError::CountRejected
    );
    assert_eq!(
        BufferPool::allocate(MemoryKind::Mapped, 9, 4096, 8).unwrap_err(),
        AllocationError::CountRejected
    );
}

#[test]
fn pool_descriptor_reports_slot() {
    let pool = BufferPool::allocate(MemoryKind::Exported, 2, 2048, 8).unwrap();
    let d = pool.descriptor(1);
    assert_eq!(d.index, 1);
    assert_eq!(d.length, 2048);
    assert_eq!(d.memory_kind, MemoryKind::Exported);
}

#[test]
fn stream_construction_respects_device_limit() {
    assert!(CaptureStream::with_buffers(MemoryKind::Mapped, 4, 4096, 8).is_ok());
    assert_eq!(
        CaptureStream::with_buffers(MemoryKind::Mapped, 9, 4096, 8).unwrap_err(),
        AllocationError::CountRejected
    );
    assert_eq!(
        CaptureStream::with_buffers(MemoryKind::Mapped, 0, 4096, 8).unwrap_err(),
        AllocationError::CountRejected
    );
}

#[test]
fn start_is_exclusive_until_stop() {
    let mut s = CaptureStream::with_buffers(MemoryKind::Mapped, 4, 4096, 8).unwrap();
    assert!(s.start().is_ok());
    assert_eq!(s.start(), Err(StreamError::InvalidState));
    assert!(s.stop().is_ok());
    assert!(s.start().is_ok());
    assert_eq!(s.start(), Err(StreamError::InvalidState));
}

#[test]
fn stop_is_idempotent() {
    let mut s = CaptureStream::with_buffers(MemoryKind::Mapped, 2, 4096, 8).unwrap();
    assert!(s.start().is_ok());
    assert!(s.stop().is_ok());
    assert!(s.stop().is_ok());
    assert_eq!(s.current_state(), StreamState::Stopped);
}

#[test]
fn round_robin_visits_every_slot_once_per_cycle() {
    let mut s = CaptureStream::with_buffers(MemoryKind::Mapped, 4, 4096, 8).unwrap();
    assert!(s.start().is_ok());
    let mut first_cycle = Vec::new();
    let mut second_cycle = Vec::new();
    for n in 0..8u32 {
        assert!(s.prepare_next().is_ok());
        let (_, meta) = s.complete_next(frame(10 * n)).unwrap();
        if n < 4 {
            first_cycle.push(meta.buffer_index);
        } else {
            second_cycle.push(meta.buffer_index);
        }
    }
    assert_eq!(first_cycle, vec![0, 1, 2, 3]);
    assert_eq!(second_cycle, vec![0, 1, 2, 3]);
}

#[test]
fn four_frames_distinct_slots_increasing_sequences() {
    let mut s = CaptureStream::with_buffers(MemoryKind::Mapped, 4, 4096, 8).unwrap();
    assert!(s.start().is_ok());
    let mut seen = [false; 4];
    let mut last_sequence = None;
    // Kernel-assigned sequences may skip on drops; feed gaps on purpose.
    for sequence in [3u32, 5, 9, 14] {
        assert!(s.prepare_next().is_ok());
        let (buf, meta) = s.complete_next(frame(sequence)).unwrap();
        assert_eq!(buf.index, meta.buffer_index);
        assert_eq!(buf.length, 4096);
        assert_eq!(buf.memory_kind, MemoryKind::Mapped);
        assert_eq!(meta.sequence, sequence);
        if let Some(prev) = last_sequence {
            assert!(meta.sequence > prev);
        }
        last_sequence = Some(meta.sequence);
        assert!(meta.buffer_index < 4);
        assert!(!seen[meta.buffer_index]);
        seen[meta.buffer_index] = true;
    }
    assert_eq!(seen, [true; 4]);
}

#[test]
fn next_before_start_is_invalid_state() {
    let mut s = CaptureStream::with_buffers(MemoryKind::Mapped, 4, 4096, 8).unwrap();
    assert_eq!(s.prepare_next(), Err(StreamError::InvalidState));
    // No device call was sanctioned: the stream is untouched.
    assert_eq!(s.current_state(), StreamState::Created);
    assert_eq!(s.live_mappings(), 4);
}

#[test]
fn complete_without_prepare_is_invalid_state() {
    let mut s = CaptureStream::with_buffers(MemoryKind::Mapped, 4, 4096, 8).unwrap();
    assert!(s.start().is_ok());
    assert_eq!(s.complete_next(frame(0)), Err(StreamError::InvalidState));
}

#[test]
fn destroy_while_streaming_releases_everything() {
    let mut s = CaptureStream::with_buffers(MemoryKind::Mapped, 4, 4096, 8).unwrap();
    assert!(s.start().is_ok());
    assert!(s.prepare_next().is_ok());
    assert!(s.complete_next(frame(0)).is_ok());
    s.destroy();
    assert_eq!(s.current_state(), StreamState::Destroyed);
    assert_eq!(s.live_mappings(), 0);
    assert_eq!(s.live_descriptors(), 0);
    // Destruction is idempotent.
    s.destroy();
    assert_eq!(s.live_mappings(), 0);
}

#[test]
fn destroy_exported_stream_closes_descriptors() {
    let mut s = CaptureStream::with_buffers(MemoryKind::Exported, 3, 2048, 8).unwrap();
    assert_eq!(s.live_descriptors(), 3);
    assert!(s.start().is_ok());
    s.destroy();
    assert_eq!(s.live_descriptors(), 0);
}

#[test]
fn timeout_leaves_stream_retryable() {
    let mut s = CaptureStream::with_buffers(MemoryKind::Mapped, 2, 4096, 8).unwrap();
    assert!(s.start().is_ok());
    assert!(s.prepare_next().is_ok());
    assert_eq!(s.complete_next(DequeueEvent::Timeout), Err(StreamError::Timeout));
    assert_eq!(s.current_state(), StreamState::Streaming);
    // The caller may simply try again.
    assert!(s.prepare_next().is_ok());
    let (_, meta) = s.complete_next(frame(0)).unwrap();
    assert_eq!(meta.buffer_index, 0);
}

#[test]
fn eof_and_io_surface_as_errors() {
    let mut s = CaptureStream::with_buffers(MemoryKind::Mapped, 2, 4096, 8).unwrap();
    assert!(s.start().is_ok());
    assert!(s.prepare_next().is_ok());
    assert_eq!(s.complete_next(DequeueEvent::Eof), Err(StreamError::Eof));
    assert!(s.prepare_next().is_ok());
    assert_eq!(
        s.complete_next(DequeueEvent::Io { code: 19 }),
        Err(StreamError::Io { code: 19 })
    );
}

#[test]
fn empty_and_error_frames_are_still_delivered() {
    let mut s = CaptureStream::with_buffers(MemoryKind::Mapped, 2, 4096, 8).unwrap();
    assert!(s.start().is_ok());
    assert!(s.prepare_next().is_ok());
    let (_, meta) = s
        .complete_next(DequeueEvent::Frame {
            sequence: 0,
            timestamp: 7,
            flags: 0x40,
            bytes_used: 0,
        })
        .unwrap();
    assert_eq!(meta.bytes_used, 0);
    assert_eq!(meta.flags, 0x40);
    assert_eq!(meta.timestamp, 7);
    assert_eq!(meta.buffer_index, 0);
}

#[test]
fn restart_resets_round_robin() {
    let mut s = CaptureStream::with_buffers(MemoryKind::Mapped, 3, 4096, 8).unwrap();
    assert!(s.start().is_ok());
    assert!(s.prepare_next().is_ok());
    assert_eq!(s.complete_next(frame(0)).unwrap().1.buffer_index, 0);
    assert!(s.stop().is_ok());
    assert!(s.start().is_ok());
    assert!(s.prepare_next().is_ok());
    assert_eq!(s.complete_next(frame(1)).unwrap().1.buffer_index, 0);
}
