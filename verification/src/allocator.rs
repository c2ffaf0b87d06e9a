//! A bump allocator over one range of bytes.
//!
//! The allocator hands out the bytes of its range from the bottom up and
//! counts the blocks that are in use. It takes bytes back only all at once,
//! when the last block in use is returned.

use core::alloc::Layout;
use vstd::prelude::*;

verus! {

/// Why an allocation was refused.
#[derive(Debug, Clone, Copy, PartialEq, Eq, Structural)]
pub enum AllocError {
    /// The range has too few bytes left.
    NoMemory,
}

pub type AllocResult<T = ()> = Result<T, AllocError>;

/// `core::alloc::Layout`, the size and alignment asked of a block. Nothing
/// inside it is visible here.
#[verifier::external_type_specification]
#[verifier::external_body]
pub struct ExLayout(Layout);

/// The number of bytes that a layout asks for: what `Layout::size` returns.
pub uninterp spec fn layout_size(layout: Layout) -> usize;

/// `Layout::size`: the size in bytes that the layout was made with. It is
/// read from the layout and from nothing else.
pub assume_specification[ Layout::size ](layout: &Layout) -> (size: usize)
    ensures
        size == layout_size(*layout),
;

/// A bump allocator: the range `base .. limit`, of which `base .. cursor`
/// has been handed out, and the number of blocks in use.
pub struct SimpleByteAllocator {
    start: usize,
    end: usize,
    next: usize,
    allocations: usize,
}

impl SimpleByteAllocator {
    /// The cursor never leaves the range.
    #[verifier::type_invariant]
    spec fn in_order(self) -> bool {
        self.start <= self.next <= self.end
    }

    /// The first address of the range.
    pub closed spec fn base(&self) -> usize {
        self.start
    }

    /// The address just past the range.
    pub closed spec fn limit(&self) -> usize {
        self.end
    }

    /// The address of the next block to be handed out.
    pub closed spec fn cursor(&self) -> usize {
        self.next
    }

    /// The number of blocks handed out and not yet returned.
    pub closed spec fn live(&self) -> usize {
        self.allocations
    }

    /// An allocator over the empty range at address zero, with no block in
    /// use.
    pub fn new() -> (allocator: Self)
        ensures
            allocator.base() == 0,
            allocator.limit() == 0,
            allocator.cursor() == 0,
            allocator.live() == 0,
    {
        Self { start: 0, end: 0, next: 0, allocations: 0 }
    }

    /// Makes `start .. start + size` the range, with nothing of it handed
    /// out. The count of blocks in use is kept.
    pub fn init(&mut self, start: usize, size: usize)
        requires
            start + size <= usize::MAX,
        ensures
            final(self).base() == start,
            final(self).cursor() == start,
            final(self).limit() == start + size,
            final(self).live() == old(self).live(),
    {
        *self = Self { start, end: start + size, next: start, allocations: self.allocations };
    }

    /// Lengthens the range by `size` bytes at its upper end. Where the new
    /// bytes are said to begin plays no part.
    pub fn add_memory(&mut self, start: usize, size: usize) -> (added: AllocResult)
        requires
            old(self).limit() + size <= usize::MAX,
        ensures
            added is Ok,
            final(self).limit() == old(self).limit() + size,
            final(self).base() == old(self).base(),
            final(self).cursor() == old(self).cursor(),
            final(self).live() == old(self).live(),
    {
        proof {
            use_type_invariant(&*self);
        }
        self.end += size;
        Ok(())
    }

    /// Hands out the next `layout_size(layout)` bytes, if so many are left,
    /// and gives the address of the first. The block lies within the range,
    /// above every block handed out since the range was last free. Alignment
    /// is not looked at.
    ///
    /// A block is never handed out at address zero, and the count of blocks
    /// must have room for one more: a request that fits is accepted only
    /// where both hold.
    pub fn allocate(&mut self, layout: Layout) -> (block: AllocResult<usize>)
        requires
            layout_size(layout) <= old(self).limit() - old(self).cursor() ==> old(self).cursor()
                != 0 && old(self).live() < usize::MAX,
        ensures
            final(self).base() == old(self).base(),
            final(self).limit() == old(self).limit(),
            match block {
                Ok(addr) => {
                    &&& layout_size(layout) <= old(self).limit() - old(self).cursor()
                    &&& addr == old(self).cursor()
                    &&& addr != 0
                    &&& old(self).base() <= addr
                    &&& addr + layout_size(layout) <= old(self).limit()
                    &&& final(self).cursor() == old(self).cursor() + layout_size(layout)
                    &&& final(self).live() == old(self).live() + 1
                },
                Err(e) => {
                    &&& e == AllocError::NoMemory
                    &&& layout_size(layout) > old(self).limit() - old(self).cursor()
                    &&& final(self).cursor() == old(self).cursor()
                    &&& final(self).live() == old(self).live()
                },
            },
    {
        proof {
            use_type_invariant(&*self);
        }
        if self.end - self.next < layout.size() {
            return Err(AllocError::NoMemory);
        }
        self.allocations += 1;
        let old_next = self.next;
        self.next += layout.size();
        Ok(old_next)
    }

    /// Takes a block back. Only the count of blocks in use goes down; when
    /// it reaches zero, the whole range is free again. Which block is
    /// returned plays no part.
    pub fn dealloc(&mut self, pos: usize, layout: Layout)
        requires
            old(self).live() > 0,
        ensures
            final(self).base() == old(self).base(),
            final(self).limit() == old(self).limit(),
            final(self).live() == old(self).live() - 1,
            final(self).cursor() == if old(self).live() == 1 {
                old(self).base()
            } else {
                old(self).cursor()
            },
    {
        proof {
            use_type_invariant(&*self);
        }
        self.allocations -= 1;
        if self.allocations == 0 {
            self.next = self.start;
        }
    }

    /// The length of the range in bytes.
    pub fn total_bytes(&self) -> (bytes: usize)
        ensures
            bytes == self.limit() - self.base(),
    {
        proof {
            use_type_invariant(self);
        }
        self.end - self.start
    }

    /// The bytes handed out since the range was last wholly free.
    pub fn used_bytes(&self) -> (bytes: usize)
        ensures
            bytes == self.cursor() - self.base(),
    {
        proof {
            use_type_invariant(self);
        }
        self.next - self.start
    }

    /// The bytes that can still be handed out.
    pub fn available_bytes(&self) -> (bytes: usize)
        ensures
            bytes == self.limit() - self.cursor(),
    {
        proof {
            use_type_invariant(self);
        }
        self.end - self.next
    }
}

} // verus!
