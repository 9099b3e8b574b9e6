//! The Base Allocator contract: the external collaborator that hands out and
//! takes back raw regions. Its internals and reclamation strategy are out of
//! scope here; implementations only have to meet this contract.

use crate::layout::{AllocError, Layout};
use vstd::prelude::*;

verus! {

/// A raw allocator. Its abstract state is the map of outstanding blocks, from
/// the address of each live allocation to the footprint it was made with.
///
/// `alloc` must return a fresh, non-null address satisfying the requested
/// size and alignment, or decline with `AllocFailed`; `dealloc` must accept
/// exactly an address/footprint pair recorded in the outstanding map and
/// retire it. Nothing is said about reuse of retired addresses or about
/// concurrency: every call is a synchronous, single-threaded transaction.
pub trait Alloc: Sized {
    /// The allocator's internal well-formedness, preserved by every call.
    spec fn inv(&self) -> bool;

    /// The outstanding blocks: each live address with its footprint.
    spec fn blocks(&self) -> Map<usize, Layout>;

    /// Request a region for `layout`.
    fn allocate(&mut self, layout: Layout) -> (r: Result<usize, AllocError>)
        requires
            old(self).inv(),
            layout.wf(),
        ensures
            final(self).inv(),
            (r matches Ok(addr) ==> {
                &&& addr != 0
                &&& addr % layout.align == 0
                &&& !old(self).blocks().dom().contains(addr)
                &&& final(self).blocks() == old(self).blocks().insert(addr, layout)
            }),
            (r matches Err(e) ==> {
                &&& e == AllocError::AllocFailed
                &&& final(self).blocks() == old(self).blocks()
            }),
    ;

    /// Return the region at `addr`, which must be outstanding with exactly
    /// this footprint; handing back anything else is ruled out here rather
    /// than reported.
    fn deallocate(&mut self, addr: usize, layout: Layout)
        requires
            old(self).inv(),
            old(self).blocks().dom().contains(addr),
            old(self).blocks()[addr] == layout,
        ensures
            final(self).inv(),
            final(self).blocks() == old(self).blocks().remove(addr),
    ;
}

} // verus!
