//! The buffer pool: a fixed-size collection of buffer handles for one
//! stream, with symmetric allocation and deallocation.
//!
//! The pool owns every handle of one stream. Its size is fixed at
//! allocation; deallocation releases every backing resource exactly once and
//! is idempotent, and it must never happen while any slot is still queued to
//! the device.

use vstd::prelude::*;
use crate::buffer::{
    descriptors_in, descriptors_of, fresh_handle, is_queued, kind_of, length_of,
    lemma_release_clears_resources, lemma_resource_sum_bounds, lemma_resource_sum_constant,
    mappings_in, mappings_of, released_handle, with_queued, BufferDescriptor, BufferHandle,
    MemoryKind,
};

verus! {

/// Why buffer allocation failed.
#[derive(Copy, Clone, Debug, PartialEq, Eq, Structural)]
pub enum AllocationError {
    /// The requested buffer count is zero or exceeds the device-reported
    /// limit.
    CountRejected,
    /// The device or driver does not support the requested memory kind.
    /// Reported by the driving code when the device refuses the kind; the
    /// pool itself never produces it.
    KindUnsupported,
    /// Mapping or exporting failed at the OS level with the given error
    /// code. Reported by the driving code; the pool itself never produces
    /// it.
    OsFailure { code: i32 },
}

/// The fixed-size collection of buffer handles backing one stream.
#[derive(Debug)]
pub struct BufferPool {
    /// One handle per buffer slot; the slot's index is its position.
    pub handles: Vec<BufferHandle>,
    /// The memory-sharing kind every slot was allocated with.
    pub memory_kind: MemoryKind,
    /// Whether `deallocate` has run: all backing resources released.
    pub released: bool,
}

/// Well-formedness of one handle within a pool: it has the pool's kind, its
/// backing resource is live exactly until the pool is released, and a
/// released pool holds no queued slot.
pub open spec fn handle_wf(h: BufferHandle, kind: MemoryKind, released: bool) -> bool {
    &&& kind_of(h) == kind
    &&& mappings_of(h) == if kind == MemoryKind::Mapped && !released {
        1int
    } else {
        0int
    }
    &&& descriptors_of(h) == if kind == MemoryKind::Exported && !released {
        1int
    } else {
        0int
    }
    &&& released ==> !is_queued(h)
}

impl BufferPool {
    /// Pool invariant: at least one slot, and every handle is well formed
    /// for the pool's kind and release state.
    pub open spec fn wf(self) -> bool {
        &&& self.handles@.len() >= 1
        &&& forall|i: int|
            0 <= i < self.handles@.len() ==> handle_wf(
                #[trigger] self.handles@[i],
                self.memory_kind,
                self.released,
            )
    }

    /// The number of buffer slots.
    pub fn len(&self) -> (r: usize)
        ensures
            r == self.handles@.len(),
    {
        self.handles.len()
    }

    /// Requests `buffer_count` buffer slots of the given memory kind and
    /// per-buffer byte capacity, against a device that reports
    /// `device_limit` as the largest count it grants. Succeeds exactly when
    /// the count is at least one and within the limit; every slot is then
    /// idle with its backing resource live.
    pub fn allocate(
        memory_kind: MemoryKind,
        buffer_count: usize,
        buffer_length: usize,
        device_limit: usize,
    ) -> (r: Result<BufferPool, AllocationError>)
        ensures
            r is Ok <==> 1 <= buffer_count <= device_limit,
            r matches Ok(p) ==> {
                &&& p.wf()
                &&& !p.released
                &&& p.memory_kind == memory_kind
                &&& p.handles@.len() == buffer_count
                &&& forall|i: int|
                    0 <= i < buffer_count ==> #[trigger] p.handles@[i] == fresh_handle(
                        memory_kind,
                        buffer_length,
                    )
            },
            r matches Err(e) ==> e == AllocationError::CountRejected,
    {
        if buffer_count == 0 || buffer_count > device_limit {
            return Err(AllocationError::CountRejected);
        }
        let mut handles: Vec<BufferHandle> = Vec::new();
        let mut i: usize = 0;
        while i < buffer_count
            invariant
                i <= buffer_count,
                handles@.len() == i,
                forall|j: int|
                    0 <= j < i ==> #[trigger] handles@[j] == fresh_handle(
                        memory_kind,
                        buffer_length,
                    ),
            decreases buffer_count - i,
        {
            let h = match memory_kind {
                MemoryKind::Mapped => BufferHandle::Mapped {
                    length: buffer_length,
                    queued: false,
                    mapped: true,
                },
                MemoryKind::UserPointer => BufferHandle::User {
                    length: buffer_length,
                    queued: false,
                },
                MemoryKind::Exported => BufferHandle::Exported {
                    length: buffer_length,
                    queued: false,
                    descriptor_open: true,
                },
            };
            handles.push(h);
            i = i + 1;
        }
        Ok(BufferPool { handles, memory_kind, released: false })
    }

    /// Releases every backing resource exactly once: unmaps mapped memory
    /// and closes exported descriptors. Idempotent, and never allowed while
    /// any slot is queued to the device.
    pub fn deallocate(&mut self)
        requires
            old(self).wf(),
            forall|i: int|
                0 <= i < old(self).handles@.len() ==> !is_queued(#[trigger] old(self).handles@[i]),
        ensures
            final(self).wf(),
            final(self).released,
            final(self).memory_kind == old(self).memory_kind,
            final(self).handles@ == old(self).handles@.map_values(
                |h: BufferHandle| released_handle(h),
            ),
            mappings_in(final(self).handles@) == 0,
            descriptors_in(final(self).handles@) == 0,
    {
        let n = self.handles.len();
        let mut i: usize = 0;
        while i < n
            invariant
                i <= n,
                n == self.handles@.len(),
                self.memory_kind == old(self).memory_kind,
                self.released == old(self).released,
                forall|j: int|
                    0 <= j < n ==> handle_wf(
                        #[trigger] old(self).handles@[j],
                        old(self).memory_kind,
                        old(self).released,
                    ),
                forall|j: int|
                    i <= j < n ==> #[trigger] self.handles@[j] == old(self).handles@[j],
                forall|j: int|
                    0 <= j < i ==> #[trigger] self.handles@[j] == released_handle(
                        old(self).handles@[j],
                    ),
            decreases n - i,
        {
            let h = match self.handles[i] {
                BufferHandle::Mapped { length, queued, .. } => BufferHandle::Mapped {
                    length,
                    queued,
                    mapped: false,
                },
                BufferHandle::User { length, queued } => BufferHandle::User { length, queued },
                BufferHandle::Exported { length, queued, .. } => BufferHandle::Exported {
                    length,
                    queued,
                    descriptor_open: false,
                },
            };
            self.handles.set(i, h);
            i = i + 1;
        }
        self.released = true;
        proof {
            assert(self.handles@ =~= old(self).handles@.map_values(
                |h: BufferHandle| released_handle(h),
            ));
            lemma_release_clears_resources(old(self).handles@);
        }
    }

    /// The kernel-reported descriptor of the slot at `index`.
    pub fn descriptor(&self, index: usize) -> (r: BufferDescriptor)
        requires
            index < self.handles@.len(),
        ensures
            r.index == index,
            r.length == length_of(self.handles@[index as int]),
            r.memory_kind == kind_of(self.handles@[index as int]),
    {
        let h = &self.handles[index];
        BufferDescriptor { index, length: h.length(), memory_kind: h.kind() }
    }

    /// Marks the slot at `index` as queued to or reclaimed from the device;
    /// nothing else changes.
    pub fn set_queued(&mut self, index: usize, queued: bool)
        requires
            old(self).wf(),
            !old(self).released,
            index < old(self).handles@.len(),
        ensures
            final(self).wf(),
            !final(self).released,
            final(self).memory_kind == old(self).memory_kind,
            final(self).handles@ == old(self).handles@.update(
                index as int,
                with_queued(old(self).handles@[index as int], queued),
            ),
    {
        let h = match self.handles[index] {
            BufferHandle::Mapped { length, mapped, .. } => BufferHandle::Mapped {
                length,
                queued,
                mapped,
            },
            BufferHandle::User { length, .. } => BufferHandle::User { length, queued },
            BufferHandle::Exported { length, descriptor_open, .. } => BufferHandle::Exported {
                length,
                queued,
                descriptor_open,
            },
        };
        self.handles.set(index, h);
    }

    /// Marks every slot as queued to or reclaimed from the device; nothing
    /// else changes.
    pub fn set_all_queued(&mut self, queued: bool)
        requires
            old(self).wf(),
            !old(self).released,
        ensures
            final(self).wf(),
            !final(self).released,
            final(self).memory_kind == old(self).memory_kind,
            final(self).handles@ == old(self).handles@.map_values(
                |h: BufferHandle| with_queued(h, queued),
            ),
    {
        let n = self.handles.len();
        let mut i: usize = 0;
        while i < n
            invariant
                i <= n,
                n == self.handles@.len(),
                self.wf(),
                !self.released,
                self.memory_kind == old(self).memory_kind,
                self.released == old(self).released,
                forall|j: int|
                    i <= j < n ==> #[trigger] self.handles@[j] == old(self).handles@[j],
                forall|j: int|
                    0 <= j < i ==> #[trigger] self.handles@[j] == with_queued(
                        old(self).handles@[j],
                        queued,
                    ),
            decreases n - i,
        {
            self.set_queued(i, queued);
            i = i + 1;
        }
        proof {
            assert(self.handles@ =~= old(self).handles@.map_values(
                |h: BufferHandle| with_queued(h, queued),
            ));
        }
    }

    /// Counts the live virtual-memory mappings the pool still owns.
    pub fn live_mappings(&self) -> (r: usize)
        ensures
            r as int == mappings_in(self.handles@),
    {
        let n = self.handles.len();
        proof {
            assert forall|k: int| 0 <= k <= n implies 0 <= mappings_in(
                #[trigger] self.handles@.take(k),
            ) <= k by {
                lemma_resource_sum_bounds(
                    self.handles@.take(k),
                    |h: BufferHandle| mappings_of(h),
                );
            }
        }
        let mut count: usize = 0;
        let mut i: usize = 0;
        while i < n
            invariant
                i <= n,
                n == self.handles@.len(),
                count as int == mappings_in(self.handles@.take(i as int)),
                mappings_in(self.handles@.take(i as int)) <= i,
                forall|k: int|
                    0 <= k <= n ==> 0 <= mappings_in(#[trigger] self.handles@.take(k)) <= k,
            decreases n - i,
        {
            let add: usize = match self.handles[i] {
                BufferHandle::Mapped { mapped, .. } => if mapped {
                    1
                } else {
                    0
                },
                _ => 0,
            };
            proof {
                assert(self.handles@.take(i + 1).drop_last() =~= self.handles@.take(i as int));
                assert(self.handles@.take(i + 1).last() == self.handles@[i as int]);
            }
            count = count + add;
            i = i + 1;
        }
        proof {
            assert(self.handles@.take(n as int) =~= self.handles@);
        }
        count
    }

    /// Counts the open duplicated descriptors the pool still owns.
    pub fn live_descriptors(&self) -> (r: usize)
        ensures
            r as int == descriptors_in(self.handles@),
    {
        let n = self.handles.len();
        proof {
            assert forall|k: int| 0 <= k <= n implies 0 <= descriptors_in(
                #[trigger] self.handles@.take(k),
            ) <= k by {
                lemma_resource_sum_bounds(
                    self.handles@.take(k),
                    |h: BufferHandle| descriptors_of(h),
                );
            }
        }
        let mut count: usize = 0;
        let mut i: usize = 0;
        while i < n
            invariant
                i <= n,
                n == self.handles@.len(),
                count as int == descriptors_in(self.handles@.take(i as int)),
                descriptors_in(self.handles@.take(i as int)) <= i,
                forall|k: int|
                    0 <= k <= n ==> 0 <= descriptors_in(#[trigger] self.handles@.take(k)) <= k,
            decreases n - i,
        {
            let add: usize = match self.handles[i] {
                BufferHandle::Exported { descriptor_open, .. } => if descriptor_open {
                    1
                } else {
                    0
                },
                _ => 0,
            };
            proof {
                assert(self.handles@.take(i + 1).drop_last() =~= self.handles@.take(i as int));
                assert(self.handles@.take(i + 1).last() == self.handles@[i as int]);
            }
            count = count + add;
            i = i + 1;
        }
        proof {
            assert(self.handles@.take(n as int) =~= self.handles@);
        }
        count
    }

    /// The resource totals a well-formed pool owns, determined by its kind,
    /// slot count, and release state.
    pub proof fn lemma_live_counts(self)
        requires
            self.wf(),
        ensures
            mappings_in(self.handles@) == if self.memory_kind == MemoryKind::Mapped
                && !self.released {
                self.handles@.len() as int
            } else {
                0int
            },
            descriptors_in(self.handles@) == if self.memory_kind == MemoryKind::Exported
                && !self.released {
                self.handles@.len() as int
            } else {
                0int
            },
    {
        if self.memory_kind == MemoryKind::Mapped && !self.released {
            lemma_resource_sum_constant(self.handles@, |h: BufferHandle| mappings_of(h), 1);
        } else {
            lemma_resource_sum_constant(self.handles@, |h: BufferHandle| mappings_of(h), 0);
        }
        if self.memory_kind == MemoryKind::Exported && !self.released {
            lemma_resource_sum_constant(self.handles@, |h: BufferHandle| descriptors_of(h), 1);
        } else {
            lemma_resource_sum_constant(self.handles@, |h: BufferHandle| descriptors_of(h), 0);
        }
    }
}

} // verus!
