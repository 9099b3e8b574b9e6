use alloc_ext::layout::{layout_for_count, layout_of, AllocError, Layout};

#[test]
fn zero_count_yields_a_valid_zero_size_footprint() {
    let elem = Layout { size: 8, align: 8 };
    let r = layout_for_count(elem, 0);
    assert_eq!(r.unwrap(), Layout { size: 0, align: 8 });
}

#[test]
fn small_counts_multiply_the_element_size() {
    let elem = Layout { size: 4, align: 4 };
    let r = layout_for_count(elem, 10);
    assert_eq!(r.unwrap(), Layout { size: 40, align: 4 });
}

#[test]
fn an_overflowing_product_is_a_layout_error() {
    let elem = Layout { size: 8, align: 8 };
    let r = layout_for_count(elem, usize::MAX / 4);
    assert_eq!(r.err().unwrap(), AllocError::LayoutError(8, 8));
}

#[test]
fn a_product_past_the_addressable_range_is_a_layout_error() {
    let elem = Layout { size: 2, align: 2 };
    let r = layout_for_count(elem, (isize::MAX as usize / 2) + 1);
    assert_eq!(r.err().unwrap(), AllocError::LayoutError(2, 2));
}

#[test]
fn layout_of_matches_the_machine_footprint() {
    let l = layout_of::<u64>();
    assert_eq!(l.size, core::mem::size_of::<u64>());
    assert_eq!(l.align, core::mem::align_of::<u64>());
}
