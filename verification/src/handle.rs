//! Allocation handles: a non-null address plus enough metadata to know the
//! region's footprint and the value's runtime shape, together with the
//! region's contents. A handle carries no ownership tracking and no implicit
//! lifecycle: it is a capability to read, write and release, consumed only by
//! an explicit release operation or by the caller's own logic.

use crate::layout::Layout;
use vstd::prelude::*;

verus! {

/// Runtime shape metadata attached to a handle, for values whose size is not
/// statically known.
#[derive(Clone, Copy, Debug, PartialEq, Eq, Structural)]
pub enum Shape {
    /// A single value of statically known footprint.
    Fixed,
    /// A contiguous sequence of the recorded length.
    Sequence(usize),
    /// A polymorphic value with the recorded dispatch descriptor.
    Polymorphic(usize),
}

/// A handle to an allocation holding one value of type `T`.
pub struct Handle<T> {
    addr: usize,
    footprint: Layout,
    shape: Shape,
    value: T,
}

impl<T> Handle<T> {
    /// The region's address.
    pub closed spec fn addr_spec(&self) -> usize {
        self.addr
    }

    /// The footprint the region was allocated with.
    pub closed spec fn footprint_spec(&self) -> Layout {
        self.footprint
    }

    /// The shape descriptor attached at creation.
    pub closed spec fn shape_spec(&self) -> Shape {
        self.shape
    }

    /// The value held in the region.
    pub closed spec fn value_spec(&self) -> T {
        self.value
    }

    pub(crate) fn make(addr: usize, footprint: Layout, shape: Shape, value: T) -> (h: Handle<T>)
        ensures
            h.addr_spec() == addr,
            h.footprint_spec() == footprint,
            h.shape_spec() == shape,
            h.value_spec() == value,
    {
        Handle { addr, footprint, shape, value }
    }

    pub(crate) fn into_parts(self) -> (r: (usize, Layout, Shape, T))
        ensures
            r.0 == self.addr_spec(),
            r.1 == self.footprint_spec(),
            r.2 == self.shape_spec(),
            r.3 == self.value_spec(),
    {
        let Handle { addr, footprint, shape, value } = self;
        (addr, footprint, shape, value)
    }

    /// The region's address.
    pub fn addr(&self) -> (a: usize)
        ensures
            a == self.addr_spec(),
    {
        self.addr
    }

    /// The footprint the region was allocated with.
    pub fn footprint(&self) -> (l: Layout)
        ensures
            l == self.footprint_spec(),
    {
        self.footprint
    }

    /// The shape descriptor attached at creation.
    pub fn shape(&self) -> (s: Shape)
        ensures
            s == self.shape_spec(),
    {
        self.shape
    }

    /// Read the value through the handle.
    pub fn read(&self) -> (r: &T)
        ensures
            *r == self.value_spec(),
    {
        &self.value
    }
}

/// A handle to an allocation holding a contiguous sequence of `T`. Its shape
/// descriptor is the sequence's length.
pub struct SliceHandle<T> {
    addr: usize,
    elems: Vec<T>,
}

impl<T> SliceHandle<T> {
    /// The region's address.
    pub closed spec fn addr_spec(&self) -> usize {
        self.addr
    }

    /// The shape descriptor: a sequence of the recorded length.
    pub open spec fn shape_spec(&self) -> Shape {
        Shape::Sequence(self@.len() as usize)
    }

    pub(crate) fn make(addr: usize, elems: Vec<T>) -> (h: SliceHandle<T>)
        ensures
            h.addr_spec() == addr,
            h@ == elems@,
    {
        SliceHandle { addr, elems }
    }

    pub(crate) fn into_parts(self) -> (r: (usize, Vec<T>))
        ensures
            r.0 == self.addr_spec(),
            r.1@ == self@,
    {
        let SliceHandle { addr, elems } = self;
        (addr, elems)
    }

    /// The region's address.
    pub fn addr(&self) -> (a: usize)
        ensures
            a == self.addr_spec(),
    {
        self.addr
    }

    /// The recorded length.
    pub fn len(&self) -> (n: usize)
        ensures
            n == self@.len(),
    {
        self.elems.len()
    }

    /// The shape descriptor: a sequence of the recorded length.
    pub fn shape(&self) -> (s: Shape)
        ensures
            s == self.shape_spec(),
    {
        Shape::Sequence(self.elems.len())
    }

    /// Read the element at `i` through the handle.
    pub fn read(&self, i: usize) -> (r: &T)
        requires
            i < self@.len(),
        ensures
            *r == self@[i as int],
    {
        &self.elems[i]
    }
}

impl<T> View for SliceHandle<T> {
    type V = Seq<T>;

    closed spec fn view(&self) -> Seq<T> {
        self.elems@
    }
}

/// A handle to an allocation filled byte for byte from a source value, with
/// the source's shape descriptor reattached.
pub struct RawHandle {
    addr: usize,
    align: usize,
    shape: Shape,
    bytes: Vec<u8>,
}

impl RawHandle {
    /// The region's address.
    pub closed spec fn addr_spec(&self) -> usize {
        self.addr
    }

    /// The shape descriptor reattached from the source.
    pub closed spec fn shape_spec(&self) -> Shape {
        self.shape
    }

    /// The footprint the region was allocated with.
    pub open spec fn footprint_spec(&self) -> Layout {
        Layout { size: self@.len() as usize, align: self.align_spec() }
    }

    /// The alignment the region was allocated with.
    pub closed spec fn align_spec(&self) -> usize {
        self.align
    }

    pub(crate) fn make(addr: usize, align: usize, shape: Shape, bytes: Vec<u8>) -> (h: RawHandle)
        ensures
            h.addr_spec() == addr,
            h.align_spec() == align,
            h.shape_spec() == shape,
            h@ == bytes@,
    {
        RawHandle { addr, align, shape, bytes }
    }

    /// The region's address.
    pub fn addr(&self) -> (a: usize)
        ensures
            a == self.addr_spec(),
    {
        self.addr
    }

    /// The footprint the region was allocated with.
    pub fn footprint(&self) -> (l: Layout)
        ensures
            l == self.footprint_spec(),
    {
        Layout { size: self.bytes.len(), align: self.align }
    }

    /// The shape descriptor reattached from the source.
    pub fn shape(&self) -> (s: Shape)
        ensures
            s == self.shape_spec(),
    {
        self.shape
    }

    /// Read the byte at `i` through the handle.
    pub fn read(&self, i: usize) -> (b: u8)
        requires
            i < self@.len(),
        ensures
            b == self@[i as int],
    {
        self.bytes[i]
    }
}

impl View for RawHandle {
    type V = Seq<u8>;

    closed spec fn view(&self) -> Seq<u8> {
        self.bytes@
    }
}

} // verus!
