//! The Layout Resolver: pure computation of memory footprints, with every
//! overflow and alignment violation rejected before any allocation attempt.

use vstd::arithmetic::div_mod::{
    lemma_div_is_ordered, lemma_fundamental_div_mod, lemma_mod_bound, lemma_mul_mod_noop_left,
};
use vstd::arithmetic::mul::lemma_mul_inequality;
use vstd::prelude::*;

verus! {

/// A memory footprint: a size in bytes together with a power-of-two alignment.
#[derive(Clone, Copy, Debug, PartialEq, Eq, Structural)]
pub struct Layout {
    pub size: usize,
    pub align: usize,
}

impl Layout {
    /// A valid footprint: the alignment is a power of two, the size is a
    /// multiple of the alignment, and the whole footprint stays inside the
    /// addressable range.
    pub open spec fn wf(self) -> bool {
        &&& vstd::layout::valid_layout(self.size, self.align)
        &&& self.size % self.align == 0
    }
}

/// The errors this layer reports: the base allocator declined a request, or a
/// footprint computation was invalid (its size and alignment are carried).
#[derive(Clone, Copy, Debug, PartialEq, Eq, Structural)]
pub enum AllocError {
    AllocFailed,
    LayoutError(usize, usize),
}

/// The largest total size the address space can represent in one allocation.
pub open spec fn max_alloc_size() -> int {
    isize::MAX as int
}

/// The footprint of `count` contiguous elements of footprint `elem`, as the
/// resolver returns it on success.
pub open spec fn spec_array_layout(elem: Layout, count: usize) -> Layout {
    Layout { size: (elem.size * count) as usize, align: elem.align }
}

/// The statically known footprint of `T`, as a `Layout` value.
pub open spec fn spec_layout_of<T>() -> Layout {
    Layout {
        size: vstd::layout::size_of::<T>() as usize,
        align: vstd::layout::align_of::<T>() as usize,
    }
}

/// Whether `count` elements of `T` fit in one allocation: a machine limit on
/// the total footprint.
pub open spec fn array_fits<T>(count: int) -> bool {
    vstd::layout::size_of::<T>() * count <= max_alloc_size()
}

/// A valid footprint's alignment is positive (it is a power of two).
pub proof fn lemma_wf_align_pos(l: Layout)
    requires
        l.wf(),
    ensures
        l.align >= 1,
{
    reveal(vstd::arithmetic::power2::is_pow2);
}

/// The footprint of a single `T`, together with its validity facts.
pub fn layout_of<T>() -> (r: Layout)
    ensures
        r == spec_layout_of::<T>(),
        r.size == vstd::layout::size_of::<T>(),
        r.align == vstd::layout::align_of::<T>(),
        r.wf(),
{
    vstd::layout::layout_for_type_is_valid::<T>();
    Layout { size: core::mem::size_of::<T>(), align: core::mem::align_of::<T>() }
}

/// A multiple of `align` that is at most `bound` is also at most the largest
/// multiple of `align` below `bound`.
proof fn lemma_multiple_within_bound(total: int, align: int, bound: int)
    requires
        align >= 1,
        total % align == 0,
        0 <= total <= bound,
    ensures
        total <= bound - bound % align,
{
    lemma_fundamental_div_mod(total, align);
    lemma_fundamental_div_mod(bound, align);
    lemma_mod_bound(bound, align);
    lemma_div_is_ordered(total, bound, align);
    lemma_mul_inequality(total / align, bound / align, align);
    assert(align * (total / align) == (total / align) * align) by (nonlinear_arith);
    assert(align * (bound / align) == (bound / align) * align) by (nonlinear_arith);
}

/// The resolver's result is a valid footprint whenever the total size fits.
proof fn lemma_array_total_valid(elem: Layout, count: usize, total: usize)
    requires
        elem.wf(),
        total == elem.size * count,
        total <= max_alloc_size(),
    ensures
        (Layout { size: total, align: elem.align }).wf(),
{
    assert(elem.align as int > 0) by {
        reveal(vstd::arithmetic::power2::is_pow2);
    };
    let x = elem.size as int;
    let y = count as int;
    let m = elem.align as int;
    assert(x % m == 0);
    lemma_mul_mod_noop_left(x, y, m);
    assert((x % m) * y == 0) by (nonlinear_arith)
        requires
            x % m == 0,
    ;
    assert((x * y) % m == 0);
    assert(total as int % m == 0);
    lemma_multiple_within_bound(total as int, elem.align as int, isize::MAX as int);
}

/// The Layout Resolver: the footprint for `count` contiguous elements of
/// footprint `elem`.
///
/// Pure and deterministic; no allocation is attempted here. Succeeds exactly
/// when the total size stays inside the addressable range (a count of zero
/// yields a valid zero-size footprint); otherwise it reports `LayoutError`
/// carrying the element's size and alignment.
pub fn layout_for_count(elem: Layout, count: usize) -> (r: Result<Layout, AllocError>)
    requires
        elem.wf(),
    ensures
        r is Ok <==> elem.size * count <= max_alloc_size(),
        (r matches Ok(l) ==> l == spec_array_layout(elem, count) && l.wf()),
        (r matches Err(e) ==> e == AllocError::LayoutError(elem.size, elem.align)),
{
    match elem.size.checked_mul(count) {
        Some(total) => {
            if total <= (isize::MAX as usize) {
                proof {
                    lemma_array_total_valid(elem, count, total);
                }
                Ok(Layout { size: total, align: elem.align })
            } else {
                Err(AllocError::LayoutError(elem.size, elem.align))
            }
        },
        None => Err(AllocError::LayoutError(elem.size, elem.align)),
    }
}

} // verus!
