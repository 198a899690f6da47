//! A heap that can be switched, once the program is running, from refusing
//! every request to serving requests out of a fixed scratch area.
//!
//! The allocator decides offsets into the scratch area; whoever owns the
//! memory turns an offset into an address. The scratch area is served by
//! bumping a mark forward, and only the block at the mark can be given back.

use vstd::prelude::*;

verus! {

/// The size of the scratch area in bytes.
pub const SCRATCH_LEN_BYTES: usize = 16777216;

/// Where the mark stands after it has been moved forward for an alignment.
pub open spec fn adjusted(mark: int, align: int) -> int {
    mark + mark % align
}

/// The state of the heap: whether it has been switched to the scratch area,
/// and where the mark of the scratch area stands.
#[derive(Clone, Copy, Debug, PartialEq, Eq)]
pub struct StaticAlloc {
    switched: bool,
    mark: usize,
}

impl StaticAlloc {
    /// The heap serves requests out of the scratch area.
    pub closed spec fn is_switched(&self) -> bool {
        self.switched
    }

    /// The offset of the first byte of the scratch area that was never handed
    /// out, or that was given back.
    pub closed spec fn mark(&self) -> int {
        self.mark as int
    }

    /// A request of `size` bytes at alignment `align` can be decided: the
    /// alignment is not zero, the adjusted mark lies inside the scratch area,
    /// and the mark after the request can be written down.
    pub open spec fn can_decide(&self, size: usize, align: usize) -> bool {
        align > 0 && adjusted(self.mark(), align as int) < SCRATCH_LEN_BYTES && adjusted(
            self.mark(),
            align as int,
        ) + size <= usize::MAX
    }

    /// A heap that refuses every request.
    pub fn new() -> (r: StaticAlloc)
        ensures
            !r.is_switched(),
            r.mark() == 0,
    {
        StaticAlloc { switched: false, mark: 0 }
    }

    /// Whether the heap serves requests out of the scratch area.
    pub fn switched(&self) -> (r: bool)
        ensures
            r == self.is_switched(),
    {
        self.switched
    }

    /// Where the mark of the scratch area stands.
    pub fn used(&self) -> (r: usize)
        ensures
            r == self.mark(),
    {
        self.mark
    }

    /// Switches the heap to the scratch area. The mark stays where it is.
    pub fn switch_to_static_heap(&mut self)
        ensures
            final(self).is_switched(),
            final(self).mark() == old(self).mark(),
    {
        self.switched = true;
    }

    /// Whether a request of `size` bytes at alignment `align` can be decided.
    pub fn decidable(&self, size: usize, align: usize) -> (r: bool)
        ensures
            r == self.can_decide(size, align),
    {
        if align == 0 {
            return false;
        }
        let slack = self.mark % align;
        if slack >= SCRATCH_LEN_BYTES || self.mark >= SCRATCH_LEN_BYTES - slack {
            return false;
        }
        size <= usize::MAX - (self.mark + slack)
    }

    /// Decides a request for `size` bytes at alignment `align`.
    ///
    /// Before the switch every request is refused and nothing changes. After
    /// it the mark is first moved forward by its remainder modulo the
    /// alignment, and then by the size. The request is granted at the adjusted
    /// mark if the block ends inside the scratch area, and refused otherwise;
    /// the mark is moved in either case.
    pub fn allocate(&mut self, size: usize, align: usize) -> (r: Option<usize>)
        requires
            old(self).is_switched() ==> old(self).can_decide(size, align),
        ensures
            final(self).is_switched() == old(self).is_switched(),
            !old(self).is_switched() ==> r is None && final(self).mark() == old(self).mark(),
            old(self).is_switched() ==> final(self).mark() == adjusted(
                old(self).mark(),
                align as int,
            ) + size,
            old(self).is_switched() ==> (r is Some <==> final(self).mark() <= SCRATCH_LEN_BYTES),
            r matches Some(offset) ==> offset == adjusted(old(self).mark(), align as int),
    {
        if !self.switched {
            return None;
        }
        let offset = self.mark + self.mark % align;
        self.mark = offset + size;
        if self.mark <= SCRATCH_LEN_BYTES {
            Some(offset)
        } else {
            None
        }
    }

    /// Takes back a block of `size` bytes at `offset`. The mark moves back by
    /// `size` if the block ends at the mark; any other block stays lost.
    pub fn deallocate(&mut self, offset: usize, size: usize)
        requires
            old(self).is_switched(),
            size <= old(self).mark(),
        ensures
            final(self).is_switched(),
            final(self).mark() == if old(self).mark() - size == offset {
                old(self).mark() - size
            } else {
                old(self).mark()
            },
    {
        if self.mark - size == offset {
            self.mark = self.mark - size;
        }
    }

    /// Where the mark stands once a block of `size` bytes at `offset` was
    /// taken back.
    pub open spec fn mark_after_return(&self, offset: usize, size: usize) -> int {
        if self.mark() - size == offset {
            self.mark() - size
        } else {
            self.mark()
        }
    }

    /// Moves a block: takes the block back and decides a request of the old
    /// size and alignment anew. The new size plays no part.
    pub fn reallocate(&mut self, offset: usize, old_size: usize, old_align: usize, new_size: usize) -> (r:
        Option<usize>)
        requires
            old(self).is_switched() ==> old_size <= old(self).mark(),
            old(self).is_switched() ==> old_align > 0,
            old(self).is_switched() ==> adjusted(
                old(self).mark_after_return(offset, old_size),
                old_align as int,
            ) < SCRATCH_LEN_BYTES,
            old(self).is_switched() ==> adjusted(
                old(self).mark_after_return(offset, old_size),
                old_align as int,
            ) + old_size <= usize::MAX,
        ensures
            final(self).is_switched() == old(self).is_switched(),
            !old(self).is_switched() ==> r is None && final(self).mark() == old(self).mark(),
            old(self).is_switched() ==> final(self).mark() == adjusted(
                old(self).mark_after_return(offset, old_size),
                old_align as int,
            ) + old_size,
            old(self).is_switched() ==> (r is Some <==> final(self).mark() <= SCRATCH_LEN_BYTES),
            r matches Some(moved) ==> moved == adjusted(
                old(self).mark_after_return(offset, old_size),
                old_align as int,
            ),
    {
        if !self.switched {
            return None;
        }
        self.deallocate(offset, old_size);
        self.allocate(old_size, old_align)
    }
}

} // verus!
