//! The per-index generator a caller supplies to fill a sequence. Its contract
//! records every invocation, so the sequence allocator can promise that the
//! generator is invoked exactly once per index, in strictly increasing order —
//! an order a side-effecting generator may rely on.

use vstd::prelude::*;

verus! {

/// A per-index generator with an observable invocation record.
pub trait Generator<T>: Sized {
    /// The indices this generator has been invoked on, in invocation order.
    spec fn calls(&self) -> Seq<usize>;

    /// The value the generator produces for index `i`.
    spec fn value(&self, i: usize) -> T;

    /// Produce the value for index `i`. Exactly this invocation is appended
    /// to the record, and the values for all indices are unchanged.
    fn produce(&mut self, i: usize) -> (t: T)
        ensures
            final(self).calls() == old(self).calls().push(i),
            t == old(self).value(i),
            forall|j: usize| final(self).value(j) == old(self).value(j),
    ;
}

/// A generator producing each index as a 32-bit value.
pub struct IndexGen {
    log: Ghost<Seq<usize>>,
}

impl IndexGen {
    /// A fresh generator with an empty invocation record.
    pub fn new() -> (g: IndexGen)
        ensures
            g.calls() == Seq::<usize>::empty(),
    {
        IndexGen { log: Ghost(Seq::empty()) }
    }
}

impl Generator<u32> for IndexGen {
    closed spec fn calls(&self) -> Seq<usize> {
        self.log@
    }

    open spec fn value(&self, i: usize) -> u32 {
        i as u32
    }

    fn produce(&mut self, i: usize) -> (t: u32) {
        self.log = Ghost(self.log@.push(i));
        #[verifier::truncate]
        (i as u32)
    }
}

} // verus!
