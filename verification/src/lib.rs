//! Core of a safe interface over a kernel video-capture device: the
//! buffer-streaming engine (buffer pool, per-buffer handles, and the
//! capture-stream state machine that queues and dequeues buffers against the
//! device), together with the four-character pixel-format tag value type.
//!
//! Device I/O itself (opening the device, issuing ioctls, mapping memory) is
//! an external collaborator: the stream exposes its queue/dequeue decisions as
//! explicit transitions, and the driving code performs the corresponding
//! device operations and reports their outcomes back as events.

pub mod buffer;
pub mod fourcc;
pub mod pool;
pub mod stream;
