//! Two allocators side by side: one for small blocks, one for large ones.

use crate::allocator::{Allocator, Owns};
use crate::layout::Layout;
use crate::memory::{AllocErr, AllocInit, MemoryBlock, MemoryBlockView, ReallocPlacement};
use crate::relocate::relocation;
use vstd::prelude::*;

verus! {

/// An allocator that serves requests of up to `THRESHOLD` bytes from `small`
/// and larger ones from `large`. A block that is resized across the threshold
/// moves to the other child.
#[derive(Debug)]
pub struct SegregateAlloc<Small, Large, const THRESHOLD: usize> {
    /// The allocator for blocks of up to `THRESHOLD` bytes.
    pub small: Small,
    /// The allocator for blocks of more than `THRESHOLD` bytes.
    pub large: Large,
}

impl<Small: Allocator, Large: Allocator, const THRESHOLD: usize> Allocator for SegregateAlloc<
    Small,
    Large,
    THRESHOLD,
> {
    /// A request of up to `THRESHOLD` bytes goes to `small`, a larger one to
    /// `large`; the other child is not touched.
    open spec fn alloc_step(
        pre: Self,
        layout: Layout,
        init: AllocInit,
        post: Self,
        outcome: Option<MemoryBlockView>,
    ) -> bool {
        if layout.size() <= THRESHOLD {
            Small::alloc_step(pre.small, layout, init, post.small, outcome) && post.large
                == pre.large
        } else {
            Large::alloc_step(pre.large, layout, init, post.large, outcome) && post.small
                == pre.small
        }
    }

    /// A block of up to `THRESHOLD` bytes goes back to `small`, a larger one to
    /// `large`; the other child is not touched.
    open spec fn dealloc_step(pre: Self, memory: MemoryBlockView, post: Self) -> bool {
        if memory.size() <= THRESHOLD {
            Small::dealloc_step(pre.small, memory, post.small) && post.large == pre.large
        } else {
            Large::dealloc_step(pre.large, memory, post.large) && post.small == pre.small
        }
    }

    /// A block that stays on its side of the threshold is grown by the child of
    /// that side, and the other child is not touched. A block of up to
    /// `THRESHOLD` bytes that is to grow beyond is relocated from `small` to
    /// `large`.
    open spec fn grow_step(
        pre: Self,
        memory: MemoryBlockView,
        new_size: usize,
        placement: ReallocPlacement,
        init: AllocInit,
        post: Self,
        outcome: Option<MemoryBlockView>,
    ) -> bool {
        if memory.size() > THRESHOLD {
            Large::grow_step(pre.large, memory, new_size, placement, init, post.large, outcome)
                && post.small == pre.small
        } else if new_size <= THRESHOLD {
            Small::grow_step(pre.small, memory, new_size, placement, init, post.small, outcome)
                && post.large == pre.large
        } else {
            relocation(
                pre.small,
                pre.large,
                memory,
                new_size,
                placement,
                init,
                post.small,
                post.large,
                outcome,
            )
        }
    }

    /// A block that stays on its side of the threshold is shrunk by the child of
    /// that side, and the other child is not touched. A block of more than
    /// `THRESHOLD` bytes that is to shrink to `THRESHOLD` bytes or fewer is
    /// relocated from `large` to `small`.
    open spec fn shrink_step(
        pre: Self,
        memory: MemoryBlockView,
        new_size: usize,
        placement: ReallocPlacement,
        post: Self,
        outcome: Option<MemoryBlockView>,
    ) -> bool {
        if memory.size() <= THRESHOLD {
            Small::shrink_step(pre.small, memory, new_size, placement, post.small, outcome)
                && post.large == pre.large
        } else if new_size > THRESHOLD {
            Large::shrink_step(pre.large, memory, new_size, placement, post.large, outcome)
                && post.small == pre.small
        } else {
            relocation(
                pre.large,
                pre.small,
                memory,
                new_size,
                placement,
                AllocInit::Uninitialized,
                post.large,
                post.small,
                outcome,
            )
        }
    }

    /// Asks `small` if `layout.size()` is at most `THRESHOLD`, and `large`
    /// otherwise.
    fn allocate(&mut self, layout: Layout, init: AllocInit) -> (result: Result<
        MemoryBlock,
        AllocErr,
    >) {
        if layout.size() <= THRESHOLD {
            self.small.allocate(layout, init)
        } else {
            self.large.allocate(layout, init)
        }
    }

    /// Returns `memory` to `small` if it holds at most `THRESHOLD` bytes, and to
    /// `large` otherwise.
    fn dealloc(&mut self, memory: MemoryBlock) {
        if memory.size() <= THRESHOLD {
            self.small.dealloc(memory)
        } else {
            self.large.dealloc(memory)
        }
    }

    /// Grows `memory` in the child of its size class or, where `new_size` lies
    /// beyond the threshold and the size of `memory` does not, moves it from
    /// `small` to `large`.
    fn grow(
        &mut self,
        memory: &mut MemoryBlock,
        new_size: usize,
        placement: ReallocPlacement,
        init: AllocInit,
    ) -> (result: Result<(), AllocErr>) {
        if memory.size() > THRESHOLD {
            self.large.grow(memory, new_size, placement, init)
        } else if new_size <= THRESHOLD {
            self.small.grow(memory, new_size, placement, init)
        } else {
            crate::relocate::grow(
                &mut self.small,
                &mut self.large,
                memory,
                new_size,
                placement,
                init,
            )
        }
    }

    /// Shrinks `memory` in the child of its size class or, where the size of
    /// `memory` lies beyond the threshold and `new_size` does not, moves it from
    /// `large` to `small`.
    fn shrink(
        &mut self,
        memory: &mut MemoryBlock,
        new_size: usize,
        placement: ReallocPlacement,
    ) -> (result: Result<(), AllocErr>) {
        if memory.size() <= THRESHOLD {
            self.small.shrink(memory, new_size, placement)
        } else if new_size > THRESHOLD {
            self.large.shrink(memory, new_size, placement)
        } else {
            crate::relocate::shrink(&mut self.large, &mut self.small, memory, new_size, placement)
        }
    }
}

impl<Small: Owns, Large: Owns, const THRESHOLD: usize> Owns for SegregateAlloc<
    Small,
    Large,
    THRESHOLD,
> {
    /// A block is owned if one of the two children owns it.
    open spec fn owns_spec(&self, memory: MemoryBlockView) -> bool {
        self.small.owns_spec(memory) || self.large.owns_spec(memory)
    }

    /// Returns whether one of the two children owns `memory`.
    fn owns(&self, memory: &MemoryBlock) -> (r: bool) {
        self.small.owns(memory) || self.large.owns(memory)
    }
}

} // verus!
