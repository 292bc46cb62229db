//! The capabilities that every composable allocator offers.

use crate::layout::Layout;
use crate::memory::{AllocErr, AllocInit, MemoryBlock, MemoryBlockView, ReallocPlacement};
use vstd::prelude::*;

verus! {

/// What a call that may hand out a block ended with: the block on success.
pub open spec fn granted(result: Result<MemoryBlock, AllocErr>) -> Option<MemoryBlockView> {
    match result {
        Ok(block) => Some(block@),
        Err(_) => None,
    }
}

/// What a resize ended with: the block as it is now if the resize succeeded.
pub open spec fn resized(result: Result<(), AllocErr>, now: MemoryBlockView) -> Option<
    MemoryBlockView,
> {
    match result {
        Ok(_) => Some(now),
        Err(_) => None,
    }
}

/// An allocator: it hands out blocks, takes them back, and resizes them.
///
/// Each operation has a relation between the allocator before the call, the
/// arguments, the allocator after the call and the outcome. An implementation
/// chooses the relation; a composite states its own in terms of those of its
/// children, so that the contract of a composite says which child was asked
/// what, and in which order. An implementation that states no relation
/// promises no more than the contract of the method.
pub trait Allocator: Sized {
    /// Whether `allocate` may take the allocator from `pre` to `post` and end with
    /// `outcome` when asked for `layout` and `init`.
    open spec fn alloc_step(
        pre: Self,
        layout: Layout,
        init: AllocInit,
        post: Self,
        outcome: Option<MemoryBlockView>,
    ) -> bool {
        true
    }

    /// Whether `dealloc` may take the allocator from `pre` to `post` when given
    /// `memory`.
    open spec fn dealloc_step(pre: Self, memory: MemoryBlockView, post: Self) -> bool {
        true
    }

    /// Whether `grow` may take the allocator from `pre` to `post` and end with
    /// `outcome` when asked to grow `memory` to `new_size`.
    open spec fn grow_step(
        pre: Self,
        memory: MemoryBlockView,
        new_size: usize,
        placement: ReallocPlacement,
        init: AllocInit,
        post: Self,
        outcome: Option<MemoryBlockView>,
    ) -> bool {
        true
    }

    /// Whether `shrink` may take the allocator from `pre` to `post` and end with
    /// `outcome` when asked to shrink `memory` to `new_size`.
    open spec fn shrink_step(
        pre: Self,
        memory: MemoryBlockView,
        new_size: usize,
        placement: ReallocPlacement,
        post: Self,
        outcome: Option<MemoryBlockView>,
    ) -> bool {
        true
    }

    /// Hands out a block of at least `layout.size()` bytes at an address that is a
    /// multiple of `layout.align()`, zeroed if `init` asks for it, or fails.
    fn allocate(&mut self, layout: Layout, init: AllocInit) -> (result: Result<MemoryBlock, AllocErr>)
        ensures
            Self::alloc_step(*old(self), layout, init, *final(self), granted(result)),
            result matches Ok(block) ==> block@.satisfies(layout, init),
    ;

    /// Takes back a block. Only a block that this allocator handed out, or one
    /// that it is known to accept, should come back; what is done with another
    /// one is up to the implementation.
    fn dealloc(&mut self, memory: MemoryBlock)
        ensures
            Self::dealloc_step(*old(self), memory@, *final(self)),
    ;

    /// Grows `memory` to at least `new_size` bytes. The bytes it held stay at the
    /// start; the new ones are zeroed if `init` asks for it. With
    /// `ReallocPlacement::InPlace` the address stays. On failure `memory` is as
    /// before.
    fn grow(
        &mut self,
        memory: &mut MemoryBlock,
        new_size: usize,
        placement: ReallocPlacement,
        init: AllocInit,
    ) -> (result: Result<(), AllocErr>)
        requires
            new_size >= old(memory)@.size(),
        ensures
            Self::grow_step(
                *old(self),
                old(memory)@,
                new_size,
                placement,
                init,
                *final(self),
                resized(result, final(memory)@),
            ),
            result is Ok ==> final(memory)@.grown_from(old(memory)@, new_size, placement, init),
            result is Err ==> final(memory)@ == old(memory)@,
    ;

    /// Shrinks `memory` to `new_size` bytes or a little more. The bytes that
    /// remain are those that the block held at the start. With
    /// `ReallocPlacement::InPlace` the address stays. On failure `memory` is as
    /// before.
    fn shrink(
        &mut self,
        memory: &mut MemoryBlock,
        new_size: usize,
        placement: ReallocPlacement,
    ) -> (result: Result<(), AllocErr>)
        requires
            new_size <= old(memory)@.size(),
        ensures
            Self::shrink_step(
                *old(self),
                old(memory)@,
                new_size,
                placement,
                *final(self),
                resized(result, final(memory)@),
            ),
            result is Ok ==> final(memory)@.shrunk_from(old(memory)@, new_size, placement),
            result is Err ==> final(memory)@ == old(memory)@,
    ;
}

/// Tells whether an allocator owns a block.
pub trait Owns: Sized {
    /// Whether the allocator owns `memory`. An implementation that does not say
    /// is taken to answer by some fixed rule.
    open spec fn owns_spec(&self, memory: MemoryBlockView) -> bool {
        arbitrary::<spec_fn(Self, MemoryBlockView) -> bool>()(*self, memory)
    }

    /// Returns whether the allocator owns `memory`. The block may be any block:
    /// the question is how to tell the owner among several allocators.
    fn owns(&self, memory: &MemoryBlock) -> (r: bool)
        ensures
            r == self.owns_spec(memory@),
    ;
}

} // verus!
