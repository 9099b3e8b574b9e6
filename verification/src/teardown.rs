//! Per-element teardown. Releasing a sequence whose elements own resources
//! goes through a destructor, whose contract records each element it is
//! handed: the composite release operation can then promise that every
//! element is torn down exactly once, in index order, before the backing
//! memory is released.

use vstd::prelude::*;

verus! {

/// A per-element teardown sink with an observable record.
pub trait Destructor<T>: Sized {
    /// The elements torn down so far, in teardown order.
    spec fn torn(&self) -> Seq<T>;

    /// Tear one element down: exactly this element is appended to the record.
    fn teardown(&mut self, x: T)
        ensures
            final(self).torn() == old(self).torn().push(x),
    ;
}

/// A destructor that keeps the elements it is handed: the record of what was
/// torn down, and in which order.
pub struct TeardownLog<T> {
    items: Vec<T>,
}

impl<T> TeardownLog<T> {
    /// A fresh log with nothing torn down yet.
    pub fn new() -> (d: TeardownLog<T>)
        ensures
            d.torn() == Seq::<T>::empty(),
    {
        TeardownLog { items: Vec::new() }
    }

    /// The elements torn down so far, in teardown order.
    pub fn items(&self) -> (r: &Vec<T>)
        ensures
            r@ == self.torn(),
    {
        &self.items
    }
}

impl<T> Destructor<T> for TeardownLog<T> {
    closed spec fn torn(&self) -> Seq<T> {
        self.items@
    }

    fn teardown(&mut self, x: T) {
        self.items.push(x);
    }
}

} // verus!
