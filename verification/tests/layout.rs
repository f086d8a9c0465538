use mw_logger::layout::{SLOT_HANDLE_ALIGN, SLOT_HANDLE_SIZE};
use mw_logger::{layout_check, LayoutDescriptor, LayoutError, SlotHandlePtr};

#[test]
fn the_declared_layout_is_24_bytes_aligned_to_8() {
    assert_eq!(SLOT_HANDLE_SIZE, 24);
    assert_eq!(SLOT_HANDLE_ALIGN, 8);
    let layout = SlotHandlePtr::layout_rust();
    assert_eq!(layout.size(), 24);
    assert_eq!(layout.align(), 8);
    assert_eq!(layout, LayoutDescriptor { size: 24, align: 8 });
}

#[test]
fn the_declared_layout_passes_the_check() {
    assert_eq!(layout_check(24, 8), Ok(()));
}

#[test]
fn another_size_fails_the_check_with_both_layouts() {
    assert_eq!(
        layout_check(32, 8),
        Err(LayoutError::Mismatch {
            rust: LayoutDescriptor { size: 24, align: 8 },
            cpp: LayoutDescriptor { size: 32, align: 8 },
        })
    );
    assert_eq!(
        layout_check(0, 8),
        Err(LayoutError::Mismatch {
            rust: LayoutDescriptor { size: 24, align: 8 },
            cpp: LayoutDescriptor { size: 0, align: 8 },
        })
    );
}

#[test]
fn another_alignment_fails_the_check_with_both_layouts() {
    assert_eq!(
        layout_check(24, 4),
        Err(LayoutError::Mismatch {
            rust: LayoutDescriptor { size: 24, align: 8 },
            cpp: LayoutDescriptor { size: 24, align: 4 },
        })
    );
    assert_eq!(
        layout_check(24, 16),
        Err(LayoutError::Mismatch {
            rust: LayoutDescriptor { size: 24, align: 8 },
            cpp: LayoutDescriptor { size: 24, align: 16 },
        })
    );
}

#[test]
fn every_mismatch_fails_the_check() {
    for size in 0..64usize {
        for align in 0..64usize {
            assert_eq!(layout_check(size, align).is_ok(), size == 24 && align == 8);
        }
    }
}

#[test]
fn a_report_that_is_no_layout_is_invalid() {
    assert_eq!(layout_check(24, 0), Err(LayoutError::Invalid { size: 24, align: 0 }));
    assert_eq!(layout_check(24, 3), Err(LayoutError::Invalid { size: 24, align: 3 }));
    assert_eq!(layout_check(24, 12), Err(LayoutError::Invalid { size: 24, align: 12 }));
    assert_eq!(
        layout_check(usize::MAX, 8),
        Err(LayoutError::Invalid { size: usize::MAX, align: 8 })
    );
}

#[test]
fn the_engine_layout_is_what_was_reported() {
    assert_eq!(SlotHandlePtr::layout_cpp(24, 8), Ok(LayoutDescriptor { size: 24, align: 8 }));
    assert_eq!(SlotHandlePtr::layout_cpp(40, 16), Ok(LayoutDescriptor { size: 40, align: 16 }));
    assert_eq!(
        SlotHandlePtr::layout_cpp(40, 6),
        Err(LayoutError::Invalid { size: 40, align: 6 })
    );
}

#[test]
fn a_layout_needs_a_power_of_two_and_room_to_round_up() {
    let max = isize::MAX as usize;
    assert!(LayoutDescriptor::from_size_align(0, 1).is_some());
    assert!(LayoutDescriptor::from_size_align(max, 1).is_some());
    assert!(LayoutDescriptor::from_size_align(max + 1, 1).is_none());
    assert!(LayoutDescriptor::from_size_align(max - 7, 8).is_some());
    assert!(LayoutDescriptor::from_size_align(max - 6, 8).is_none());
    assert!(LayoutDescriptor::from_size_align(0, max + 1).is_some());
    assert!(LayoutDescriptor::from_size_align(1, max + 1).is_none());
    assert!(LayoutDescriptor::from_size_align(8, 0).is_none());
    for align in [3usize, 5, 6, 7, 9, 10, 12, 24, 100, max] {
        assert!(LayoutDescriptor::from_size_align(8, align).is_none());
    }
    let mut align = 1usize;
    while align != 0 {
        assert!(LayoutDescriptor::from_size_align(0, align).is_some());
        align <<= 1;
    }
}

#[test]
fn a_layout_agrees_with_the_standard_one() {
    let max = isize::MAX as usize;
    for size in [0usize, 1, 24, 1000, max - 8, max - 7, max - 6, max, max + 1, usize::MAX] {
        for align in [0usize, 1, 2, 3, 8, 12, 4096, max, max + 1] {
            let ours = LayoutDescriptor::from_size_align(size, align);
            let theirs = std::alloc::Layout::from_size_align(size, align);
            assert_eq!(ours.is_some(), theirs.is_ok());
            if let (Some(ours), Ok(theirs)) = (ours, theirs) {
                assert_eq!(ours.size(), theirs.size());
                assert_eq!(ours.align(), theirs.align());
            }
        }
    }
}
