//! Per-buffer data: memory-sharing kinds, kernel-reported descriptors, and
//! the handle that stands for one buffer slot together with its backing
//! resource.
//!
//! A handle records, as plain values, what the kernel and the process share
//! for one buffer slot: how the memory is shared, how many bytes the slot
//! holds, whether the slot is currently queued to (owned by) the device, and
//! whether the handle still owns its backing resource (a memory mapping or a
//! duplicated file descriptor). The driving code performs the actual
//! mapping, unmapping, and descriptor duplication; the accounting here is
//! what guarantees that every acquired resource is released exactly once.

use vstd::prelude::*;

verus! {

/// The mechanism by which one buffer's memory is shared between the device
/// and the process.
#[derive(Copy, Clone, Debug, PartialEq, Eq, Structural)]
pub enum MemoryKind {
    /// A virtual-memory mapping of device memory, owned by the handle.
    Mapped,
    /// Caller-supplied memory; the handle only records it and never owns it.
    UserPointer,
    /// A duplicated file descriptor referencing device-backed memory.
    Exported,
}

/// Kernel-reported metadata for one buffer slot, fixed at allocation.
#[derive(Copy, Clone, Debug, PartialEq, Eq, Structural)]
pub struct BufferDescriptor {
    /// Ordinal position of the slot within its pool, stable for the pool's
    /// lifetime.
    pub index: usize,
    /// Byte capacity of the slot.
    pub length: usize,
    /// How the slot's memory is shared.
    pub memory_kind: MemoryKind,
}

/// One buffer slot, polymorphic over its memory-sharing kind.
///
/// While `queued` is set the slot is owned by the device and its memory must
/// not be read, written, or released.
#[derive(Copy, Clone, Debug, PartialEq, Eq, Structural)]
pub enum BufferHandle {
    /// Exclusively owns a virtual-memory mapping of device memory while
    /// `mapped` is set; the mapping lives exactly as long as the handle.
    Mapped { length: usize, queued: bool, mapped: bool },
    /// References caller-supplied memory: only bookkeeping, never ownership.
    User { length: usize, queued: bool },
    /// Owns a duplicated file descriptor referencing device-backed memory
    /// while `descriptor_open` is set.
    Exported { length: usize, queued: bool, descriptor_open: bool },
}

/// The memory-sharing kind of a handle.
pub open spec fn kind_of(h: BufferHandle) -> MemoryKind {
    match h {
        BufferHandle::Mapped { .. } => MemoryKind::Mapped,
        BufferHandle::User { .. } => MemoryKind::UserPointer,
        BufferHandle::Exported { .. } => MemoryKind::Exported,
    }
}

/// The byte capacity a handle records.
pub open spec fn length_of(h: BufferHandle) -> usize {
    match h {
        BufferHandle::Mapped { length, .. } => length,
        BufferHandle::User { length, .. } => length,
        BufferHandle::Exported { length, .. } => length,
    }
}

/// Whether the slot is currently queued to (owned by) the device.
pub open spec fn is_queued(h: BufferHandle) -> bool {
    match h {
        BufferHandle::Mapped { queued, .. } => queued,
        BufferHandle::User { queued, .. } => queued,
        BufferHandle::Exported { queued, .. } => queued,
    }
}

/// How many live virtual-memory mappings the handle owns (zero or one).
pub open spec fn mappings_of(h: BufferHandle) -> int {
    match h {
        BufferHandle::Mapped { mapped, .. } => if mapped {
            1
        } else {
            0
        },
        _ => 0,
    }
}

/// How many open duplicated descriptors the handle owns (zero or one).
pub open spec fn descriptors_of(h: BufferHandle) -> int {
    match h {
        BufferHandle::Exported { descriptor_open, .. } => if descriptor_open {
            1
        } else {
            0
        },
        _ => 0,
    }
}

/// A freshly allocated handle of the given kind: idle, with its backing
/// resource live where the kind owns one.
pub open spec fn fresh_handle(kind: MemoryKind, length: usize) -> BufferHandle {
    match kind {
        MemoryKind::Mapped => BufferHandle::Mapped { length, queued: false, mapped: true },
        MemoryKind::UserPointer => BufferHandle::User { length, queued: false },
        MemoryKind::Exported => BufferHandle::Exported {
            length,
            queued: false,
            descriptor_open: true,
        },
    }
}

/// The handle with its backing resource released: the mapping unmapped or
/// the descriptor closed. Idle and user-pointer bookkeeping is unchanged.
pub open spec fn released_handle(h: BufferHandle) -> BufferHandle {
    match h {
        BufferHandle::Mapped { length, queued, .. } => BufferHandle::Mapped {
            length,
            queued,
            mapped: false,
        },
        BufferHandle::User { .. } => h,
        BufferHandle::Exported { length, queued, .. } => BufferHandle::Exported {
            length,
            queued,
            descriptor_open: false,
        },
    }
}

/// The handle with its device-ownership mark set to `queued`; everything
/// else unchanged.
pub open spec fn with_queued(h: BufferHandle, queued: bool) -> BufferHandle {
    match h {
        BufferHandle::Mapped { length, mapped, .. } => BufferHandle::Mapped {
            length,
            queued,
            mapped,
        },
        BufferHandle::User { length, .. } => BufferHandle::User { length, queued },
        BufferHandle::Exported { length, descriptor_open, .. } => BufferHandle::Exported {
            length,
            queued,
            descriptor_open,
        },
    }
}

/// Total of a per-handle resource measure over a sequence of handles.
pub open spec fn resource_sum(s: Seq<BufferHandle>, f: spec_fn(BufferHandle) -> int) -> int
    decreases s.len(),
{
    if s.len() == 0 {
        0
    } else {
        resource_sum(s.drop_last(), f) + f(s.last())
    }
}

/// Live virtual-memory mappings held across a sequence of handles.
pub open spec fn mappings_in(s: Seq<BufferHandle>) -> int {
    resource_sum(s, |h: BufferHandle| mappings_of(h))
}

/// Open duplicated descriptors held across a sequence of handles.
pub open spec fn descriptors_in(s: Seq<BufferHandle>) -> int {
    resource_sum(s, |h: BufferHandle| descriptors_of(h))
}

/// A measure that is the same constant on every handle sums to the constant
/// times the number of handles.
pub proof fn lemma_resource_sum_constant(
    s: Seq<BufferHandle>,
    f: spec_fn(BufferHandle) -> int,
    c: int,
)
    requires
        forall|i: int| 0 <= i < s.len() ==> f(#[trigger] s[i]) == c,
    ensures
        resource_sum(s, f) == s.len() * c,
    decreases s.len(),
{
    if s.len() == 0 {
    } else {
        lemma_resource_sum_constant(s.drop_last(), f, c);
        assert((s.len() - 1) * c + c == s.len() * c) by (nonlinear_arith);
    }
}

/// A measure bounded between 0 and 1 on every handle sums to a value
/// between 0 and the number of handles.
pub proof fn lemma_resource_sum_bounds(s: Seq<BufferHandle>, f: spec_fn(BufferHandle) -> int)
    requires
        forall|i: int| 0 <= i < s.len() ==> 0 <= f(#[trigger] s[i]) <= 1,
    ensures
        0 <= resource_sum(s, f) <= s.len(),
    decreases s.len(),
{
    if s.len() == 0 {
    } else {
        lemma_resource_sum_bounds(s.drop_last(), f);
    }
}

/// Releasing every handle of any sequence leaves no live mappings and no
/// open descriptors: allocation followed by deallocation is resource-neutral.
pub proof fn lemma_release_clears_resources(s: Seq<BufferHandle>)
    ensures
        mappings_in(s.map_values(|h: BufferHandle| released_handle(h))) == 0,
        descriptors_in(s.map_values(|h: BufferHandle| released_handle(h))) == 0,
{
    let released = s.map_values(|h: BufferHandle| released_handle(h));
    lemma_resource_sum_constant(released, |h: BufferHandle| mappings_of(h), 0);
    lemma_resource_sum_constant(released, |h: BufferHandle| descriptors_of(h), 0);
}

impl BufferHandle {
    /// The memory-sharing kind of this handle.
    pub fn kind(&self) -> (r: MemoryKind)
        ensures
            r == kind_of(*self),
    {
        match self {
            BufferHandle::Mapped { .. } => MemoryKind::Mapped,
            BufferHandle::User { .. } => MemoryKind::UserPointer,
            BufferHandle::Exported { .. } => MemoryKind::Exported,
        }
    }

    /// The byte capacity this handle records.
    pub fn length(&self) -> (r: usize)
        ensures
            r == length_of(*self),
    {
        match self {
            BufferHandle::Mapped { length, .. } => *length,
            BufferHandle::User { length, .. } => *length,
            BufferHandle::Exported { length, .. } => *length,
        }
    }

    /// Whether the slot is currently queued to the device.
    pub fn queued(&self) -> (r: bool)
        ensures
            r == is_queued(*self),
    {
        match self {
            BufferHandle::Mapped { queued, .. } => *queued,
            BufferHandle::User { queued, .. } => *queued,
            BufferHandle::Exported { queued, .. } => *queued,
        }
    }
}

} // verus!
