//! Extension operations over any base allocator: allocate-and-initialize for
//! single values, duplicates and sequences, and the release operations. Every
//! operation is a single allocate-plus-initialize or teardown-plus-release
//! transaction with no state of its own; on failure no partial allocation
//! escapes.

use crate::base::Alloc;
use crate::caps::{ByteDup, CloneTo};
use crate::generator::Generator;
use crate::handle::{Handle, RawHandle, Shape, SliceHandle};
use crate::layout::{
    array_fits, layout_for_count, layout_of, spec_array_layout, spec_layout_of, AllocError, Layout,
};
use crate::teardown::Destructor;
use vstd::prelude::*;

verus! {

/// Extension methods for the base [`Alloc`] contract: routines that combine
/// footprint computation, allocation, writes, duplication and release for
/// the different value shapes.
pub trait AllocExt: Alloc {
    /// Allocate space for a single `T` and move `data` into it.
    ///
    /// `data` is consumed whatever the outcome: on success it is relocated
    /// into the new region; on failure it is disposed of normally, and no
    /// copy of it survives next to a half-made block.
    fn alloc_write<T>(&mut self, data: T) -> (r: Result<Handle<T>, AllocError>)
        requires
            old(self).inv(),
        ensures
            final(self).inv(),
            (r matches Ok(h) ==> {
                &&& h.value_spec() == data
                &&& h.shape_spec() == Shape::Fixed
                &&& h.footprint_spec() == spec_layout_of::<T>()
                &&& h.addr_spec() != 0
                &&& h.addr_spec() % spec_layout_of::<T>().align == 0
                &&& !old(self).blocks().dom().contains(h.addr_spec())
                &&& final(self).blocks() == old(self).blocks().insert(
                    h.addr_spec(),
                    spec_layout_of::<T>(),
                )
            }),
            (r matches Err(e) ==> {
                &&& e == AllocError::AllocFailed
                &&& final(self).blocks() == old(self).blocks()
            }),
    ;

    /// Allocate a block sized to the runtime footprint of `data` and
    /// construct a duplicate directly in it, reattaching the source's shape
    /// descriptor.
    fn alloc_clone_to<T: CloneTo>(&mut self, data: &T) -> (r: Result<Handle<T>, AllocError>)
        requires
            old(self).inv(),
            data.footprint_fits(),
        ensures
            final(self).inv(),
            (r matches Ok(h) ==> {
                &&& h.value_spec()@ == data@
                &&& h.shape_spec() == data.spec_shape()
                &&& h.footprint_spec() == data.spec_footprint()
                &&& h.addr_spec() != 0
                &&& h.addr_spec() % data.spec_footprint().align == 0
                &&& !old(self).blocks().dom().contains(h.addr_spec())
                &&& final(self).blocks() == old(self).blocks().insert(
                    h.addr_spec(),
                    data.spec_footprint(),
                )
            }),
            (r matches Err(e) ==> {
                &&& e == AllocError::AllocFailed
                &&& final(self).blocks() == old(self).blocks()
            }),
    ;

    /// Allocate a run of `data.len()` elements and duplicate each source
    /// element into its slot, in strictly increasing index order.
    ///
    /// The duplication capability is total, so no element can fault
    /// mid-sequence and no partially filled block is ever left behind: the
    /// only failure is the base allocator declining, before any element is
    /// duplicated.
    fn alloc_clone_slice_to<T: CloneTo>(&mut self, data: &Vec<T>) -> (r: Result<
        SliceHandle<T>,
        AllocError,
    >)
        requires
            old(self).inv(),
            array_fits::<T>(data@.len() as int),
        ensures
            final(self).inv(),
            (r matches Ok(h) ==> {
                &&& h@.len() == data@.len()
                &&& forall|i: int| 0 <= i < data@.len() ==> (#[trigger] h@[i])@ == data@[i]@
                &&& h.addr_spec() != 0
                &&& h.addr_spec() % spec_layout_of::<T>().align == 0
                &&& !old(self).blocks().dom().contains(h.addr_spec())
                &&& final(self).blocks() == old(self).blocks().insert(
                    h.addr_spec(),
                    spec_array_layout(spec_layout_of::<T>(), data@.len() as usize),
                )
            }),
            (r matches Err(e) ==> {
                &&& e == AllocError::AllocFailed
                &&& final(self).blocks() == old(self).blocks()
            }),
    ;

    /// Allocate a run of `len` elements and fill slot `i` with `f(i)`.
    ///
    /// The footprint is computed and validated first: on an unrepresentable
    /// total the call reports `LayoutError` and no allocation is attempted,
    /// and `f` is never invoked.
    fn alloc_slice_with<T, F: Fn(usize) -> T>(&mut self, len: usize, f: F) -> (r: Result<
        SliceHandle<T>,
        AllocError,
    >)
        requires
            old(self).inv(),
            forall|i: usize| i < len ==> call_requires(f, (i,)),
        ensures
            final(self).inv(),
            (r matches Ok(h) ==> {
                &&& h@.len() == len
                &&& forall|i: int|
                    0 <= i < len ==> call_ensures(f, ((i as usize),), #[trigger] h@[i])
                &&& h.addr_spec() != 0
                &&& h.addr_spec() % spec_layout_of::<T>().align == 0
                &&& !old(self).blocks().dom().contains(h.addr_spec())
                &&& final(self).blocks() == old(self).blocks().insert(
                    h.addr_spec(),
                    spec_array_layout(spec_layout_of::<T>(), len),
                )
            }),
            r == Err::<SliceHandle<T>, AllocError>(
                AllocError::LayoutError(spec_layout_of::<T>().size, spec_layout_of::<T>().align),
            ) <==> !array_fits::<T>(len as int),
            (r matches Err(e) ==> {
                &&& final(self).blocks() == old(self).blocks()
                &&& (e == AllocError::AllocFailed || e == AllocError::LayoutError(
                    spec_layout_of::<T>().size,
                    spec_layout_of::<T>().align,
                ))
            }),
    ;

    /// Allocate a run of `len` elements and fill slot `i` with the
    /// generator's value for `i`, invoking the generator exactly once per
    /// index, in strictly increasing order `0, 1, …, len - 1`.
    ///
    /// On an unrepresentable footprint the call reports `LayoutError` before
    /// any allocation attempt, and the generator is never invoked; likewise
    /// when the base allocator declines.
    fn alloc_slice_gen<T, G: Generator<T>>(&mut self, len: usize, g: &mut G) -> (r: Result<
        SliceHandle<T>,
        AllocError,
    >)
        requires
            old(self).inv(),
        ensures
            final(self).inv(),
            forall|j: usize| final(g).value(j) == old(g).value(j),
            (r matches Ok(h) ==> {
                &&& h@.len() == len
                &&& forall|i: int| 0 <= i < len ==> #[trigger] h@[i] == old(g).value(i as usize)
                &&& final(g).calls() == old(g).calls() + Seq::new(len as nat, |i: int| i as usize)
                &&& h.addr_spec() != 0
                &&& h.addr_spec() % spec_layout_of::<T>().align == 0
                &&& !old(self).blocks().dom().contains(h.addr_spec())
                &&& final(self).blocks() == old(self).blocks().insert(
                    h.addr_spec(),
                    spec_array_layout(spec_layout_of::<T>(), len),
                )
            }),
            r == Err::<SliceHandle<T>, AllocError>(
                AllocError::LayoutError(spec_layout_of::<T>().size, spec_layout_of::<T>().align),
            ) <==> !array_fits::<T>(len as int),
            (r matches Err(e) ==> {
                &&& final(self).blocks() == old(self).blocks()
                &&& final(g).calls() == old(g).calls()
                &&& (e == AllocError::AllocFailed || e == AllocError::LayoutError(
                    spec_layout_of::<T>().size,
                    spec_layout_of::<T>().align,
                ))
            }),
    ;

    /// Release the region behind a single-value handle, handing the value
    /// back. The handle must come from an allocation on this allocator with
    /// this footprint; that is required here, not reported.
    fn release<T>(&mut self, h: Handle<T>) -> (v: T)
        requires
            old(self).inv(),
            old(self).blocks().dom().contains(h.addr_spec()),
            old(self).blocks()[h.addr_spec()] == h.footprint_spec(),
        ensures
            final(self).inv(),
            v == h.value_spec(),
            final(self).blocks() == old(self).blocks().remove(h.addr_spec()),
    ;

    /// Release a sequence handle's backing memory only, with a footprint
    /// recomputed from the recorded length. The handle must come from an
    /// allocation on this allocator with that footprint, and the caller must
    /// already have disposed of whatever the elements own; that is required
    /// here, not reported.
    fn dealloc_slice<T>(&mut self, h: SliceHandle<T>)
        requires
            old(self).inv(),
            array_fits::<T>(h@.len() as int),
            old(self).blocks().dom().contains(h.addr_spec()),
            old(self).blocks()[h.addr_spec()] == spec_array_layout(
                spec_layout_of::<T>(),
                h@.len() as usize,
            ),
        ensures
            final(self).inv(),
            final(self).blocks() == old(self).blocks().remove(h.addr_spec()),
    ;

    /// Tear each element down exactly once, in index order, strictly before
    /// releasing the backing memory: the safe composite release for
    /// sequences whose elements own resources.
    fn drop_and_dealloc_slice<T, D: Destructor<T>>(&mut self, h: SliceHandle<T>, d: &mut D)
        requires
            old(self).inv(),
            array_fits::<T>(h@.len() as int),
            old(self).blocks().dom().contains(h.addr_spec()),
            old(self).blocks()[h.addr_spec()] == spec_array_layout(
                spec_layout_of::<T>(),
                h@.len() as usize,
            ),
        ensures
            final(self).inv(),
            final(d).torn() == old(d).torn() + h@,
            final(self).blocks() == old(self).blocks().remove(h.addr_spec()),
    ;

    /// Duplicate `data` by verbatim copy, skipping constructor logic: the
    /// checked raw-copy entry, open to types carrying the [`ByteDup`]
    /// marker.
    fn alloc_copy_ref_to<T: ByteDup>(&mut self, data: &T) -> (r: Result<Handle<T>, AllocError>)
        requires
            old(self).inv(),
        ensures
            final(self).inv(),
            (r matches Ok(h) ==> {
                &&& h.value_spec() == *data
                &&& h.shape_spec() == Shape::Fixed
                &&& h.footprint_spec() == spec_layout_of::<T>()
                &&& h.addr_spec() != 0
                &&& h.addr_spec() % spec_layout_of::<T>().align == 0
                &&& !old(self).blocks().dom().contains(h.addr_spec())
                &&& final(self).blocks() == old(self).blocks().insert(
                    h.addr_spec(),
                    spec_layout_of::<T>(),
                )
            }),
            (r matches Err(e) ==> {
                &&& e == AllocError::AllocFailed
                &&& final(self).blocks() == old(self).blocks()
            }),
    ;

    /// Duplicate a value from its raw bytes, byte for byte, reattaching the
    /// source's shape descriptor — the unchecked raw-copy entry, which
    /// bypasses the marker capability. The caller vouches that the bytes are
    /// a value for which verbatim duplication is correct, and that size and
    /// alignment form the value's real footprint; that is required here, not
    /// reported.
    fn alloc_copy_ref_to_unchecked(&mut self, bytes: &Vec<u8>, align: usize, shape: Shape) -> (r:
        Result<RawHandle, AllocError>)
        requires
            old(self).inv(),
            (Layout { size: bytes@.len() as usize, align: align }).wf(),
        ensures
            final(self).inv(),
            (r matches Ok(h) ==> {
                &&& h@ == bytes@
                &&& h.shape_spec() == shape
                &&& h.align_spec() == align
                &&& h.addr_spec() != 0
                &&& h.addr_spec() % align == 0
                &&& !old(self).blocks().dom().contains(h.addr_spec())
                &&& final(self).blocks() == old(self).blocks().insert(
                    h.addr_spec(),
                    (Layout { size: bytes@.len() as usize, align: align }),
                )
            }),
            (r matches Err(e) ==> {
                &&& e == AllocError::AllocFailed
                &&& final(self).blocks() == old(self).blocks()
            }),
    ;
}

impl<A: Alloc> AllocExt for A {
    fn alloc_write<T>(&mut self, data: T) -> (r: Result<Handle<T>, AllocError>) {
        let l = layout_of::<T>();
        match self.allocate(l) {
            Ok(addr) => Ok(Handle::make(addr, l, Shape::Fixed, data)),
            Err(e) => Err(e),
        }
    }

    fn alloc_clone_to<T: CloneTo>(&mut self, data: &T) -> (r: Result<Handle<T>, AllocError>) {
        let l = data.footprint();
        match self.allocate(l) {
            Ok(addr) => Ok(Handle::make(addr, l, data.shape(), data.clone_to())),
            Err(e) => Err(e),
        }
    }

    fn alloc_clone_slice_to<T: CloneTo>(&mut self, data: &Vec<T>) -> (r: Result<
        SliceHandle<T>,
        AllocError,
    >) {
        let elem = layout_of::<T>();
        let total = match layout_for_count(elem, data.len()) {
            Ok(l) => l,
            Err(_) => {
                proof {
                    assert(false);
                }
                elem
            },
        };
        match self.allocate(total) {
            Ok(addr) => {
                let mut elems: Vec<T> = Vec::new();
                let mut i: usize = 0;
                while i < data.len()
                    invariant
                        i <= data@.len(),
                        elems@.len() == i as int,
                        forall|j: int| 0 <= j < i ==> (#[trigger] elems@[j])@ == data@[j]@,
                    decreases data@.len() - i,
                {
                    elems.push(data[i].clone_to());
                    i = i + 1;
                }
                Ok(SliceHandle::make(addr, elems))
            },
            Err(e) => Err(e),
        }
    }

    fn alloc_slice_with<T, F: Fn(usize) -> T>(&mut self, len: usize, f: F) -> (r: Result<
        SliceHandle<T>,
        AllocError,
    >) {
        let elem = layout_of::<T>();
        match layout_for_count(elem, len) {
            Err(e) => Err(e),
            Ok(total) => match self.allocate(total) {
                Err(e) => Err(e),
                Ok(addr) => {
                    let mut elems: Vec<T> = Vec::new();
                    let mut i: usize = 0;
                    while i < len
                        invariant
                            i <= len,
                            elems@.len() == i as int,
                            forall|k: usize| k < len ==> call_requires(f, (k,)),
                            forall|j: int|
                                0 <= j < i ==> call_ensures(
                                    f,
                                    ((j as usize),),
                                    #[trigger] elems@[j],
                                ),
                        decreases len - i,
                    {
                        let t = f(i);
                        elems.push(t);
                        i = i + 1;
                    }
                    Ok(SliceHandle::make(addr, elems))
                },
            },
        }
    }

    fn alloc_slice_gen<T, G: Generator<T>>(&mut self, len: usize, g: &mut G) -> (r: Result<
        SliceHandle<T>,
        AllocError,
    >) {
        let elem = layout_of::<T>();
        match layout_for_count(elem, len) {
            Err(e) => Err(e),
            Ok(total) => match self.allocate(total) {
                Err(e) => Err(e),
                Ok(addr) => {
                    let mut elems: Vec<T> = Vec::new();
                    let mut i: usize = 0;
                    while i < len
                        invariant
                            i <= len,
                            elems@.len() == i as int,
                            g.calls() == old(g).calls() + Seq::new(
                                i as nat,
                                |k: int| k as usize,
                            ),
                            forall|j: usize| g.value(j) == old(g).value(j),
                            forall|j: int| 0 <= j < i ==> #[trigger] elems@[j] == old(g).value(
                                j as usize,
                            ),
                        decreases len - i,
                    {
                        let t = g.produce(i);
                        elems.push(t);
                        i = i + 1;
                        proof {
                            assert(g.calls() =~= old(g).calls() + Seq::new(
                                i as nat,
                                |k: int| k as usize,
                            ));
                        }
                    }
                    Ok(SliceHandle::make(addr, elems))
                },
            },
        }
    }

    fn release<T>(&mut self, h: Handle<T>) -> (v: T) {
        let (addr, footprint, _shape, value) = h.into_parts();
        self.deallocate(addr, footprint);
        value
    }

    fn dealloc_slice<T>(&mut self, h: SliceHandle<T>) {
        let elem = layout_of::<T>();
        let (addr, elems) = h.into_parts();
        let total = match layout_for_count(elem, elems.len()) {
            Ok(l) => l,
            Err(_) => {
                proof {
                    assert(false);
                }
                elem
            },
        };
        self.deallocate(addr, total);
    }

    fn drop_and_dealloc_slice<T, D: Destructor<T>>(&mut self, h: SliceHandle<T>, d: &mut D) {
        let elem = layout_of::<T>();
        let (addr, mut elems) = h.into_parts();
        let ghost all = elems@;
        let total = match layout_for_count(elem, elems.len()) {
            Ok(l) => l,
            Err(_) => {
                proof {
                    assert(false);
                }
                elem
            },
        };
        while elems.len() > 0
            invariant
                elems@.len() <= all.len(),
                elems@ == all.subrange(all.len() - elems@.len(), all.len() as int),
                d.torn() == old(d).torn() + all.subrange(0, all.len() - elems@.len()),
            decreases elems@.len(),
        {
            let ghost k = all.len() - elems@.len();
            let x = elems.remove(0);
            d.teardown(x);
            proof {
                assert(x == all[k]);
                assert(all.subrange(0, k + 1) =~= all.subrange(0, k).push(all[k]));
                assert(elems@ =~= all.subrange(k + 1, all.len() as int));
            }
        }
        proof {
            assert(all.subrange(0, all.len() as int) =~= all);
        }
        self.deallocate(addr, total);
    }

    fn alloc_copy_ref_to<T: ByteDup>(&mut self, data: &T) -> (r: Result<Handle<T>, AllocError>) {
        let l = layout_of::<T>();
        match self.allocate(l) {
            Ok(addr) => Ok(Handle::make(addr, l, Shape::Fixed, *data)),
            Err(e) => Err(e),
        }
    }

    fn alloc_copy_ref_to_unchecked(&mut self, bytes: &Vec<u8>, align: usize, shape: Shape) -> (r:
        Result<RawHandle, AllocError>) {
        let l = Layout { size: bytes.len(), align };
        match self.allocate(l) {
            Ok(addr) => {
                let mut copied: Vec<u8> = Vec::new();
                let mut i: usize = 0;
                while i < bytes.len()
                    invariant
                        i <= bytes@.len(),
                        copied@ == bytes@.subrange(0, i as int),
                    decreases bytes@.len() - i,
                {
                    copied.push(bytes[i]);
                    i = i + 1;
                }
                proof {
                    assert(copied@ =~= bytes@);
                }
                Ok(RawHandle::make(addr, align, shape, copied))
            },
            Err(e) => Err(e),
        }
    }
}

/// Law: writing and then releasing leaves no residual allocation — a block
/// absent from the outstanding map, once inserted and then removed, restores
/// the map exactly.
pub proof fn lemma_alloc_release_no_residual(blocks: Map<usize, Layout>, addr: usize, l: Layout)
    requires
        !blocks.dom().contains(addr),
    ensures
        blocks.insert(addr, l).remove(addr) == blocks,
{
    assert(blocks.insert(addr, l).remove(addr) =~= blocks);
}

} // verus!
