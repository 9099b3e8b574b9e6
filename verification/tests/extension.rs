use alloc_ext::arena::ArenaAlloc;
use alloc_ext::base::Alloc;
use alloc_ext::caps::{CloneTo, Payload};
use alloc_ext::ext::AllocExt;
use alloc_ext::generator::IndexGen;
use alloc_ext::handle::Shape;
use alloc_ext::layout::{AllocError, Layout};
use std::cell::RefCell;

#[test]
fn write_read_release_leaves_nothing() {
    let mut a = ArenaAlloc::new(1024);
    assert_eq!(a.outstanding(), 0);
    let h = a.alloc_write(42u64).unwrap();
    assert_eq!(*h.read(), 42u64);
    assert_eq!(h.shape(), Shape::Fixed);
    assert_eq!(a.outstanding(), 1);
    let v = a.release(h);
    assert_eq!(v, 42u64);
    assert_eq!(a.outstanding(), 0);
}

#[test]
fn write_returns_aligned_nonnull_address() {
    let mut a = ArenaAlloc::new(1024);
    let small = a.alloc_write(1u8).unwrap();
    let h = a.alloc_write(7u64).unwrap();
    assert!(h.addr() != 0);
    assert_eq!(h.addr() % 8, 0);
    assert!(small.addr() != h.addr());
}

#[test]
fn write_fails_when_arena_is_full() {
    let mut a = ArenaAlloc::new(8);
    let first = a.alloc_write(1u64);
    assert!(first.is_ok());
    let second = a.alloc_write(2u64);
    assert!(matches!(second, Err(AllocError::AllocFailed)));
    assert_eq!(a.outstanding(), 1);
}

#[test]
fn clone_to_duplicates_a_payload_and_keeps_its_shape() {
    let mut a = ArenaAlloc::new(1024);
    let p = Payload::new(vec![10u64, 20, 30]);
    let h = a.alloc_clone_to(&p).unwrap();
    assert_eq!(h.shape(), Shape::Sequence(3));
    assert_eq!(h.footprint(), Layout { size: 24, align: 8 });
    let q = h.read();
    assert_eq!(q.len(), 3);
    assert_eq!(q.word(0), 10);
    assert_eq!(q.word(1), 20);
    assert_eq!(q.word(2), 30);
    assert_eq!(a.outstanding(), 1);
}

#[test]
fn clone_to_duplicates_a_fixed_value() {
    let mut a = ArenaAlloc::new(1024);
    let h = a.alloc_clone_to(&99u64).unwrap();
    assert_eq!(*h.read(), 99u64);
    assert_eq!(h.shape(), Shape::Fixed);
}

#[test]
fn payload_clone_to_is_equal_to_its_source() {
    let p = Payload::new(vec![4u64, 5, 6]);
    let q = p.clone_to();
    assert_eq!(q.len(), 3);
    assert_eq!(q.word(0), 4);
    assert_eq!(q.word(1), 5);
    assert_eq!(q.word(2), 6);
}

#[test]
fn clone_slice_copies_every_element_in_place() {
    let mut a = ArenaAlloc::new(1024);
    let data = vec![10u64, 20, 30, 40];
    let h = a.alloc_clone_slice_to(&data).unwrap();
    assert_eq!(h.len(), 4);
    assert_eq!(h.shape(), Shape::Sequence(4));
    for i in 0..4 {
        assert_eq!(*h.read(i), data[i]);
    }
}

#[test]
fn slice_with_invokes_generator_once_per_index_in_order() {
    let mut a = ArenaAlloc::new(1024);
    let log: RefCell<Vec<usize>> = RefCell::new(Vec::new());
    let h = a
        .alloc_slice_with(5, |i| {
            log.borrow_mut().push(i);
            (i as u64) * 2
        })
        .unwrap();
    assert_eq!(h.len(), 5);
    for i in 0..5 {
        assert_eq!(*h.read(i), (i as u64) * 2);
    }
    assert_eq!(*log.borrow(), vec![0, 1, 2, 3, 4]);
}

#[test]
fn slice_with_surfaces_layout_error_before_allocating() {
    let mut a = ArenaAlloc::new(1024);
    let r = a.alloc_slice_with(1_000_000_000_000usize, |_i| [0u64; 1_200_000]);
    assert_eq!(r.err().unwrap(), AllocError::LayoutError(9_600_000, 8));
    assert_eq!(a.outstanding(), 0);
}

#[test]
fn slice_with_reports_a_declined_allocation() {
    let mut a = ArenaAlloc::new(16);
    let log: RefCell<Vec<usize>> = RefCell::new(Vec::new());
    let r = a.alloc_slice_with(10, |i| {
        log.borrow_mut().push(i);
        i as u64
    });
    assert!(matches!(r, Err(AllocError::AllocFailed)));
    assert!(log.borrow().is_empty());
    assert_eq!(a.outstanding(), 0);
}

#[test]
fn generate_ten_words_in_a_small_arena() {
    let mut a = ArenaAlloc::new(1024);
    let mut g = IndexGen::new();
    let h = a.alloc_slice_gen(10, &mut g).unwrap();
    assert_eq!(h.len(), 10);
    for i in 0..10 {
        assert_eq!(*h.read(i), i as u32);
    }
    assert_eq!(a.outstanding(), 1);
}

#[test]
fn generate_zero_elements_yields_an_empty_sequence() {
    let mut a = ArenaAlloc::new(1024);
    let mut g = IndexGen::new();
    let h = a.alloc_slice_gen(0, &mut g).unwrap();
    assert_eq!(h.len(), 0);
    assert_eq!(h.shape(), Shape::Sequence(0));
}

#[test]
fn teardown_runs_once_per_element_in_order_then_releases() {
    let mut a = ArenaAlloc::new(1024);
    let data = vec![5u64, 6, 7];
    let h = a.alloc_clone_slice_to(&data).unwrap();
    assert_eq!(a.outstanding(), 1);
    let mut d = alloc_ext::teardown::TeardownLog::new();
    a.drop_and_dealloc_slice(h, &mut d);
    assert_eq!(*d.items(), vec![5u64, 6, 7]);
    assert_eq!(a.outstanding(), 0);
}

#[test]
fn dealloc_slice_releases_the_memory_only() {
    let mut a = ArenaAlloc::new(1024);
    let data = vec![1u64, 2];
    let h = a.alloc_clone_slice_to(&data).unwrap();
    assert_eq!(a.outstanding(), 1);
    a.dealloc_slice(h);
    assert_eq!(a.outstanding(), 0);
}

#[test]
fn checked_raw_copy_duplicates_a_marked_value() {
    let mut a = ArenaAlloc::new(1024);
    let h = a.alloc_copy_ref_to(&7u32).unwrap();
    assert_eq!(*h.read(), 7u32);
    assert_eq!(h.shape(), Shape::Fixed);
}

#[test]
fn unchecked_raw_copy_keeps_bytes_and_shape() {
    let mut a = ArenaAlloc::new(1024);
    let bytes = vec![1u8, 2, 3, 4];
    let h = a
        .alloc_copy_ref_to_unchecked(&bytes, 1, Shape::Polymorphic(9))
        .unwrap();
    assert_eq!(h.shape(), Shape::Polymorphic(9));
    assert_eq!(h.footprint(), Layout { size: 4, align: 1 });
    for i in 0..4 {
        assert_eq!(h.read(i), bytes[i]);
    }
    let addr = h.addr();
    let fp = h.footprint();
    a.deallocate(addr, fp);
    assert_eq!(a.outstanding(), 0);
}
