//! A fixed-capacity bump arena: a small base allocator of this crate's own,
//! instrumented with a count of outstanding blocks. It serves requests from a
//! bump cursor and never hands the same address out twice.

use crate::base::Alloc;
use crate::layout::{lemma_wf_align_pos, AllocError, Layout};
use vstd::arithmetic::div_mod::{lemma_fundamental_div_mod, lemma_mod_multiples_basic};
use vstd::prelude::*;

verus! {

/// First address of the arena's window, and the strongest alignment it can
/// serve.
pub const ARENA_BASE: usize = 65536;

/// A fixed-capacity, arena-backed base allocator.
pub struct ArenaAlloc {
    capacity: usize,
    cursor: usize,
    outstanding_count: usize,
    live: Ghost<Map<usize, Layout>>,
}

impl ArenaAlloc {
    /// The capacity the arena was made with, in bytes.
    pub closed spec fn capacity_spec(&self) -> usize {
        self.capacity
    }

    /// How many bytes of the window the bump cursor has consumed so far.
    pub closed spec fn cursor_spec(&self) -> usize {
        self.cursor
    }

    /// The largest capacity an arena can be given: its window and the
    /// padding around it must stay addressable.
    pub open spec fn max_capacity() -> int {
        usize::MAX - 2 * ARENA_BASE
    }

    /// A fresh arena over `capacity` bytes, with no outstanding block.
    pub fn new(capacity: usize) -> (r: ArenaAlloc)
        requires
            capacity <= ArenaAlloc::max_capacity(),
        ensures
            r.inv(),
            r.blocks() == Map::<usize, Layout>::empty(),
            r.capacity_spec() == capacity,
            r.cursor_spec() == 0,
    {
        ArenaAlloc {
            capacity,
            cursor: 0,
            outstanding_count: 0,
            live: Ghost(Map::empty()),
        }
    }

    /// How many blocks are allocated and not yet released.
    pub fn outstanding(&self) -> (n: usize)
        requires
            self.inv(),
        ensures
            n == self.blocks().len(),
    {
        self.outstanding_count
    }
}

impl Alloc for ArenaAlloc {
    closed spec fn inv(&self) -> bool {
        &&& self.cursor <= self.capacity
        &&& self.capacity <= usize::MAX - 2 * ARENA_BASE
        &&& self.live@.dom().finite()
        &&& self.outstanding_count == self.live@.len()
        &&& self.live@.len() <= self.cursor
        &&& forall|a: usize|
            self.live@.dom().contains(a) ==> ARENA_BASE <= a < ARENA_BASE + self.cursor
    }

    closed spec fn blocks(&self) -> Map<usize, Layout> {
        self.live@
    }

    /// Besides the base contract, this arena states when it owes success:
    /// any request it can align (up to [`ARENA_BASE`]) whose size plus
    /// worst-case padding fits the unconsumed window is served.
    fn allocate(&mut self, layout: Layout) -> (r: Result<usize, AllocError>)
        ensures
            layout.align <= ARENA_BASE && layout.size + layout.align <= old(self).capacity_spec()
                - old(self).cursor_spec() ==> r is Ok,
            r is Ok ==> final(self).cursor_spec() <= old(self).cursor_spec() + layout.align
                + layout.size,
            r is Err ==> final(self).cursor_spec() == old(self).cursor_spec(),
            final(self).capacity_spec() == old(self).capacity_spec(),
    {
        proof {
            lemma_wf_align_pos(layout);
        }
        if layout.align > ARENA_BASE {
            return Err(AllocError::AllocFailed);
        }
        let free: usize = ARENA_BASE + self.cursor;
        let rem: usize = free % layout.align;
        let addr: usize = if rem == 0 {
            free
        } else {
            free + (layout.align - rem)
        };
        proof {
            if rem != 0 {
                let a = layout.align as int;
                let q = free as int / a;
                lemma_fundamental_div_mod(free as int, a);
                assert(addr as int == a * q + a);
                assert(a * q + a == (q + 1) * a) by (nonlinear_arith);
                assert(addr as int == (q + 1) * a);
                lemma_mod_multiples_basic(q + 1, a);
            }
        }
        let pad: usize = addr - free;
        let need: usize = if layout.size == 0 {
            1
        } else {
            layout.size
        };
        if pad > self.capacity - self.cursor || need > self.capacity - self.cursor - pad {
            return Err(AllocError::AllocFailed);
        }
        self.cursor = self.cursor + pad + need;
        self.outstanding_count = self.outstanding_count + 1;
        self.live = Ghost(self.live@.insert(addr, layout));
        Ok(addr)
    }

    /// A bump arena reclaims nothing: retiring a block leaves the window
    /// untouched.
    fn deallocate(&mut self, addr: usize, layout: Layout)
        ensures
            final(self).cursor_spec() == old(self).cursor_spec(),
            final(self).capacity_spec() == old(self).capacity_spec(),
    {
        proof {
            assert(self.live@.dom().contains(addr));
        }
        self.outstanding_count = self.outstanding_count - 1;
        self.live = Ghost(self.live@.remove(addr));
    }
}

} // verus!
