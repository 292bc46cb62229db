//! The capability of observing what an allocator is asked and what it answers.

use crate::layout::Layout;
use crate::memory::{AllocErr, AllocInit, MemoryBlock, MemoryBlockView, ReallocPlacement};
use vstd::prelude::*;

verus! {

/// What an observer is shown of the outcome of a call: the block on success.
pub open spec fn shown(result: Result<&MemoryBlock, AllocErr>) -> Option<MemoryBlockView> {
    match result {
        Ok(block) => Some(block@),
        Err(_) => None,
    }
}

/// An observer of allocator operations. After each operation it is told the
/// arguments and the outcome. It only takes note: it cannot fail, and what it
/// does has no part in what the operation returns.
///
/// Each method has a relation between the observer before the call, what it is
/// told, and the observer after the call. An implementation that states no
/// relation promises nothing.
pub trait CallbackRef: Sized {
    /// Whether being told of an `allocate` may take the observer from `pre` to
    /// `post`.
    open spec fn allocate_noted(
        pre: Self,
        layout: Layout,
        init: AllocInit,
        outcome: Option<MemoryBlockView>,
        post: Self,
    ) -> bool {
        true
    }

    /// Whether being told of a `dealloc` may take the observer from `pre` to
    /// `post`.
    open spec fn dealloc_noted(pre: Self, addr: usize, layout: Layout, post: Self) -> bool {
        true
    }

    /// Whether being told of a `grow` may take the observer from `pre` to `post`.
    open spec fn grow_noted(
        pre: Self,
        addr: usize,
        layout: Layout,
        new_size: usize,
        placement: ReallocPlacement,
        init: AllocInit,
        outcome: Option<MemoryBlockView>,
        post: Self,
    ) -> bool {
        true
    }

    /// Whether being told of a `shrink` may take the observer from `pre` to
    /// `post`.
    open spec fn shrink_noted(
        pre: Self,
        addr: usize,
        layout: Layout,
        new_size: usize,
        placement: ReallocPlacement,
        outcome: Option<MemoryBlockView>,
        post: Self,
    ) -> bool {
        true
    }

    /// Whether being told of an `owns` may take the observer from `pre` to
    /// `post`.
    open spec fn owns_noted(pre: Self, success: bool, post: Self) -> bool {
        true
    }

    /// Called after `allocate` with its arguments and its result.
    fn allocate(&mut self, layout: Layout, init: AllocInit, result: Result<&MemoryBlock, AllocErr>)
        ensures
            Self::allocate_noted(*old(self), layout, init, shown(result), *final(self)),
    ;

    /// Called when a block goes back, with the address and the layout of the
    /// block.
    fn dealloc(&mut self, addr: usize, layout: Layout)
        ensures
            Self::dealloc_noted(*old(self), addr, layout, *final(self)),
    ;

    /// Called after `grow` with the address and the layout that the block had,
    /// the other arguments, and the block as it is now if the call succeeded.
    fn grow(
        &mut self,
        addr: usize,
        layout: Layout,
        new_size: usize,
        placement: ReallocPlacement,
        init: AllocInit,
        result: Result<&MemoryBlock, AllocErr>,
    )
        ensures
            Self::grow_noted(
                *old(self),
                addr,
                layout,
                new_size,
                placement,
                init,
                shown(result),
                *final(self),
            ),
    ;

    /// Called after `shrink` with the address and the layout that the block had,
    /// the other arguments, and the block as it is now if the call succeeded.
    fn shrink(
        &mut self,
        addr: usize,
        layout: Layout,
        new_size: usize,
        placement: ReallocPlacement,
        result: Result<&MemoryBlock, AllocErr>,
    )
        ensures
            Self::shrink_noted(
                *old(self),
                addr,
                layout,
                new_size,
                placement,
                shown(result),
                *final(self),
            ),
    ;

    /// Called after `owns` with its result.
    fn owns(&mut self, success: bool)
        ensures
            Self::owns_noted(*old(self), success, *final(self)),
    ;
}

} // verus!
