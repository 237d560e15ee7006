//! What the allocator asks of the collector, and the collector's counters.
//!
//! The collector itself is reached through foreign calls, which live outside
//! this crate. Here is what decides which call is made, and with what.
use vstd::prelude::*;

verus! {

/// Up to this alignment the collector's plain allocation call will do.
pub const MIN_ALIGN: usize = 8;

/// The allocator that hands out memory of the collected heap.
#[derive(Debug)]
pub struct GcAllocator;

/// A call that obtains memory from the collector.
#[derive(Clone, Copy, Debug, PartialEq, Eq, Structural)]
pub enum AllocCall {
    /// The plain call, which aligns to [`MIN_ALIGN`] at least.
    Malloc { nbytes: usize },
    /// The call that takes an alignment.
    PosixMemalign { align: usize, nbytes: usize },
}

/// How a block is resized.
#[derive(Clone, Copy, Debug, PartialEq, Eq, Structural)]
pub enum ReallocCall {
    /// The collector resizes the block in place or moves it.
    Realloc { new_size: usize },
    /// A new block is obtained with `alloc`; if that succeeds, the first
    /// `copy` bytes are copied over and the old block is freed.
    Move { alloc: AllocCall, copy: usize },
}

/// The counters of the collector, as one snapshot.
#[derive(Debug, Clone, Copy)]
pub struct GcStats {
    pub finalizers_registered: u64,
    pub finalizers_completed: u64,
    pub allocated_gc: u64,
    pub allocated_boxed: u64,
    pub allocated_arc: u64,
    pub allocated_rc: u64,
    pub num_gcs: u64,
}

/// How many finalizers were registered, and how many have run.
#[derive(Debug, Clone, Copy)]
pub struct FinalizerInfo {
    pub registered: u64,
    pub completed: u64,
}

/// The collector's own account of its heap.
#[derive(Default, Debug)]
pub struct ProfileStats {
    /// Heap size in bytes, unmapped areas included.
    pub heapsize_full: usize,
    /// Bytes in free and unmapped blocks.
    pub free_bytes_full: usize,
    /// Bytes handed back to the system.
    pub unmapped_bytes: usize,
    /// Bytes allocated since the last collection.
    pub bytes_allocd_since_gc: usize,
    /// Bytes allocated before the last collection. May wrap.
    pub allocd_bytes_before_gc: usize,
    /// Bytes that are no candidates for collection.
    pub non_gc_bytes: usize,
    /// Number of the collection cycle. May wrap.
    pub gc_no: usize,
    /// Number of marker threads, the initiating one excluded.
    pub markers_m1: usize,
    /// Bytes reclaimed by the last collection, roughly.
    pub bytes_reclaimed_since_gc: usize,
    /// Bytes reclaimed before the last collection, roughly. May wrap.
    pub reclaimed_bytes_before_gc: usize,
    /// Bytes freed by hand since the last collection.
    pub expl_freed_bytes_since_gc: usize,
    /// Bytes obtained from the system in all.
    pub obtained_from_os_bytes: usize,
}

impl FinalizerInfo {
    /// The part of a snapshot that concerns finalizers.
    pub fn finalizer_info(stats: &GcStats) -> (info: FinalizerInfo)
        ensures
            info.registered == stats.finalizers_registered,
            info.completed == stats.finalizers_completed,
    {
        FinalizerInfo {
            registered: stats.finalizers_registered,
            completed: stats.finalizers_completed,
        }
    }
}

/// `size` rounded up to the next multiple of `align`.
pub open spec fn round_up(size: int, align: int) -> int {
    if size % align == 0 {
        size
    } else {
        size + align - size % align
    }
}

/// The alignment handed to the aligned call: never below the size of a
/// pointer, which that call insists on.
pub open spec fn memalign_align(align: usize) -> usize {
    if align >= core::mem::size_of::<usize>() {
        align
    } else {
        core::mem::size_of::<usize>()
    }
}

/// The call that serves a request for `size` bytes aligned to `align`.
pub open spec fn malloc_call(size: usize, align: usize) -> AllocCall {
    if align <= MIN_ALIGN && align <= size {
        AllocCall::Malloc { nbytes: size }
    } else {
        AllocCall::PosixMemalign { align: memalign_align(align), nbytes: size }
    }
}

/// Chooses the call for a request of `size` bytes aligned to `align`: the
/// plain call where its alignment suffices, else the aligned one.
pub fn gc_malloc(size: usize, align: usize) -> (call: AllocCall)
    ensures
        call == malloc_call(size, align),
{
    if align <= MIN_ALIGN && align <= size {
        AllocCall::Malloc { nbytes: size }
    } else {
        let word = core::mem::size_of::<usize>();
        let align = if align >= word {
            align
        } else {
            word
        };
        AllocCall::PosixMemalign { align, nbytes: size }
    }
}

/// Chooses how a block of `old_size` bytes aligned to `old_align` grows or
/// shrinks to `new_size` bytes: by the collector's own call where the plain
/// alignment suffices, else by a new block that takes over as many bytes as
/// both sizes allow.
pub fn gc_realloc(old_size: usize, old_align: usize, new_size: usize) -> (call: ReallocCall)
    ensures
        call == if old_align <= MIN_ALIGN && old_align <= new_size {
            ReallocCall::Realloc { new_size }
        } else {
            ReallocCall::Move {
                alloc: malloc_call(new_size, old_align),
                copy: if old_size <= new_size {
                    old_size
                } else {
                    new_size
                },
            }
        },
{
    if old_align <= MIN_ALIGN && old_align <= new_size {
        ReallocCall::Realloc { new_size }
    } else {
        let copy = if old_size <= new_size {
            old_size
        } else {
            new_size
        };
        ReallocCall::Move { alloc: gc_malloc(new_size, old_align), copy }
    }
}

/// The size and alignment of the block that holds a value of the given size
/// and alignment behind a handle: the value sits at the start of the block,
/// and the block's size is a multiple of its alignment.
pub fn gcbox_layout_for_value_layout(size: usize, align: usize) -> (layout: (usize, usize))
    requires
        align > 0,
        size + align - 1 <= usize::MAX,
    ensures
        layout.0 == round_up(size as int, align as int),
        layout.1 == align,
        layout.0 % align == 0,
        size <= layout.0 < size + align,
{
    let rest = size % align;
    if rest == 0 {
        (size, align)
    } else {
        let padded = size + (align - rest);
        assert(padded % align == 0) by (nonlinear_arith)
            requires
                padded == size + align - rest,
                rest == size % align,
                align > 0,
        ;
        (padded, align)
    }
}

impl GcAllocator {
    /// The call that allocates `size` bytes aligned to `align`, or none for
    /// a request of no bytes, which is served without the collector.
    pub fn allocate(&self, size: usize, align: usize) -> (call: Option<AllocCall>)
        ensures
            call == if size == 0 {
                None
            } else {
                Some(malloc_call(size, align))
            },
    {
        if size == 0 {
            None
        } else {
            Some(gc_malloc(size, align))
        }
    }
}

} // verus!
