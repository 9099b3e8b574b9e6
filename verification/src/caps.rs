//! The two duplication capabilities a value type can offer: constructing a
//! duplicate directly at a destination, and the marker that byte-for-byte
//! duplication is always safe.

use crate::handle::Shape;
use crate::layout::{layout_for_count, layout_of, max_alloc_size, spec_array_layout,
    spec_layout_of, Layout};
use vstd::prelude::*;

verus! {

/// Capability: construct a semantically correct duplicate of `self` directly
/// at a destination, together with the value's runtime footprint and shape
/// metadata. Dynamically sized values report a footprint that varies per
/// instance, so the footprint is a property of the value, not of the type.
pub trait CloneTo: View + Sized {
    /// The runtime footprint of this value.
    spec fn spec_footprint(&self) -> Layout;

    /// The runtime shape descriptor of this value.
    spec fn spec_shape(&self) -> Shape;

    /// Whether this value's footprint is representable at all (a machine
    /// limit; always true for statically sized values).
    spec fn footprint_fits(&self) -> bool;

    /// Compute the runtime footprint.
    fn footprint(&self) -> (l: Layout)
        requires
            self.footprint_fits(),
        ensures
            l == self.spec_footprint(),
            l.wf(),
    ;

    /// Report the runtime shape descriptor.
    fn shape(&self) -> (s: Shape)
        ensures
            s == self.spec_shape(),
    ;

    /// Construct the duplicate: the result is observably equal to the source.
    fn clone_to(&self) -> (r: Self)
        ensures
            r@ == self@,
    ;
}

impl CloneTo for u64 {
    open spec fn spec_footprint(&self) -> Layout {
        spec_layout_of::<u64>()
    }

    open spec fn spec_shape(&self) -> Shape {
        Shape::Fixed
    }

    open spec fn footprint_fits(&self) -> bool {
        true
    }

    fn footprint(&self) -> (l: Layout) {
        layout_of::<u64>()
    }

    fn shape(&self) -> (s: Shape) {
        Shape::Fixed
    }

    fn clone_to(&self) -> (r: u64) {
        *self
    }
}

/// A dynamically sized value: a variable-length payload of words. Its
/// footprint depends on its runtime length, and its shape descriptor records
/// that length.
pub struct Payload {
    items: Vec<u64>,
}

impl Payload {
    /// A payload over the given words.
    pub fn new(items: Vec<u64>) -> (p: Payload)
        ensures
            p@ == items@,
    {
        Payload { items }
    }

    /// How many words the payload holds.
    pub fn len(&self) -> (n: usize)
        ensures
            n == self@.len(),
    {
        self.items.len()
    }

    /// The word at `i`.
    pub fn word(&self, i: usize) -> (w: u64)
        requires
            i < self@.len(),
        ensures
            w == self@[i as int],
    {
        self.items[i]
    }
}

impl View for Payload {
    type V = Seq<u64>;

    closed spec fn view(&self) -> Seq<u64> {
        self.items@
    }
}

impl CloneTo for Payload {
    open spec fn spec_footprint(&self) -> Layout {
        spec_array_layout(spec_layout_of::<u64>(), self@.len() as usize)
    }

    open spec fn spec_shape(&self) -> Shape {
        Shape::Sequence(self@.len() as usize)
    }

    open spec fn footprint_fits(&self) -> bool {
        vstd::layout::size_of::<u64>() * self@.len() <= max_alloc_size()
    }

    fn footprint(&self) -> (l: Layout) {
        let elem = layout_of::<u64>();
        match layout_for_count(elem, self.items.len()) {
            Ok(l) => l,
            Err(_) => {
                proof {
                    assert(false);
                }
                elem
            },
        }
    }

    fn shape(&self) -> (s: Shape) {
        Shape::Sequence(self.items.len())
    }

    fn clone_to(&self) -> (r: Payload) {
        let mut items: Vec<u64> = Vec::new();
        let mut i: usize = 0;
        while i < self.items.len()
            invariant
                i <= self.items.len(),
                items@ == self.items@.subrange(0, i as int),
            decreases self.items.len() - i,
        {
            items.push(self.items[i]);
            i = i + 1;
        }
        proof {
            assert(items@ =~= self.items@);
        }
        Payload { items }
    }
}

/// Marker capability: this value is trivially duplicable byte for byte — it
/// owns nothing and holds no internal self-reference whose verbatim copy
/// would be incorrect.
pub trait ByteDup: Copy {}

impl ByteDup for u8 {}

impl ByteDup for u16 {}

impl ByteDup for u32 {}

impl ByteDup for u64 {}

impl ByteDup for usize {}

impl ByteDup for i32 {}

impl ByteDup for i64 {}

impl ByteDup for bool {}

impl ByteDup for char {}

} // verus!
