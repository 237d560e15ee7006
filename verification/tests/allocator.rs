use finalizer_safety::allocator::{
    gc_malloc, gc_realloc, gcbox_layout_for_value_layout, AllocCall, FinalizerInfo, GcAllocator,
    GcStats, ProfileStats, ReallocCall, MIN_ALIGN,
};

#[test]
fn large_alignment() {
    // A type of one byte aligned to 1024, and so 1024 bytes large.
    let x = GcAllocator.allocate(1024, 1024);
    match x {
        Some(AllocCall::PosixMemalign { align, nbytes }) => {
            assert!(align != 0);
            assert!(align % 1024 == 0);
            assert_eq!(nbytes, 1024);
        }
        other => panic!("{:?}", other),
    }

    // Four words aligned to 16.
    let size = 4 * std::mem::size_of::<usize>();
    let y = GcAllocator.allocate(size, 16);
    match y {
        Some(AllocCall::PosixMemalign { align, nbytes }) => {
            assert!(align != 0);
            assert!(align % 16 == 0);
            assert_eq!(nbytes, size);
        }
        other => panic!("{:?}", other),
    }
}

#[test]
fn bdwgc_issue_589() {
    assert_eq!(
        gc_malloc(512, 64),
        AllocCall::PosixMemalign { align: 64, nbytes: 512 }
    );
}

#[test]
fn small_alignments_take_the_plain_call() {
    assert_eq!(MIN_ALIGN, 8);
    assert_eq!(gc_malloc(16, 8), AllocCall::Malloc { nbytes: 16 });
    assert_eq!(gc_malloc(8, 8), AllocCall::Malloc { nbytes: 8 });
    assert_eq!(gc_malloc(1, 1), AllocCall::Malloc { nbytes: 1 });
}

#[test]
fn alignment_above_size_takes_the_aligned_call() {
    let word = std::mem::size_of::<usize>();
    // Alignment 8 for 4 bytes: the plain call would not promise it.
    assert_eq!(
        gc_malloc(4, 8),
        AllocCall::PosixMemalign { align: word.max(8), nbytes: 4 }
    );
    // An alignment below a pointer's size is raised to it.
    assert_eq!(
        gc_malloc(1, 2),
        AllocCall::PosixMemalign { align: word, nbytes: 1 }
    );
    assert_eq!(
        gc_malloc(64, 16),
        AllocCall::PosixMemalign { align: 16, nbytes: 64 }
    );
}

#[test]
fn nothing_is_allocated_for_no_bytes() {
    assert_eq!(GcAllocator.allocate(0, 8), None);
    assert_eq!(GcAllocator.allocate(0, 4096), None);
    assert_eq!(
        GcAllocator.allocate(24, 8),
        Some(AllocCall::Malloc { nbytes: 24 })
    );
}

#[test]
fn realloc_in_place_or_by_moving() {
    assert_eq!(gc_realloc(16, 8, 32), ReallocCall::Realloc { new_size: 32 });
    // Growing an over-aligned block copies all of the old one.
    assert_eq!(
        gc_realloc(64, 64, 128),
        ReallocCall::Move {
            alloc: AllocCall::PosixMemalign { align: 64, nbytes: 128 },
            copy: 64
        }
    );
    // Shrinking copies what fits.
    assert_eq!(
        gc_realloc(128, 64, 64),
        ReallocCall::Move {
            alloc: AllocCall::PosixMemalign { align: 64, nbytes: 64 },
            copy: 64
        }
    );
    // A new size below the alignment cannot use the plain call.
    let word = std::mem::size_of::<usize>();
    assert_eq!(
        gc_realloc(16, 8, 4),
        ReallocCall::Move {
            alloc: AllocCall::PosixMemalign { align: word.max(8), nbytes: 4 },
            copy: 4
        }
    );
}

#[test]
fn block_layout_pads_to_the_alignment() {
    assert_eq!(gcbox_layout_for_value_layout(0, 1), (0, 1));
    assert_eq!(gcbox_layout_for_value_layout(1, 8), (8, 8));
    assert_eq!(gcbox_layout_for_value_layout(8, 8), (8, 8));
    assert_eq!(gcbox_layout_for_value_layout(9, 8), (16, 8));
    assert_eq!(gcbox_layout_for_value_layout(123, 1024), (1024, 1024));
    assert_eq!(gcbox_layout_for_value_layout(13, 4), (16, 4));
}

#[test]
fn finalizer_info_is_taken_from_the_snapshot() {
    let stats = GcStats {
        finalizers_registered: 10,
        finalizers_completed: 4,
        allocated_gc: 100,
        allocated_boxed: 3,
        allocated_arc: 2,
        allocated_rc: 1,
        num_gcs: 7,
    };
    let info = FinalizerInfo::finalizer_info(&stats);
    assert_eq!(info.registered, 10);
    assert_eq!(info.completed, 4);
}

#[test]
fn profile_stats_start_at_zero() {
    let stats = ProfileStats::default();
    assert_eq!(stats.heapsize_full, 0);
    assert_eq!(stats.gc_no, 0);
    assert_eq!(stats.obtained_from_os_bytes, 0);
}
