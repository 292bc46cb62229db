//! The allocator that owns nothing and refuses every request.

use crate::allocator::{Allocator, Owns};
use crate::layout::Layout;
use crate::memory::{AllocErr, AllocInit, MemoryBlock, MemoryBlockView, ReallocPlacement};
use vstd::prelude::*;

verus! {

/// An allocator without memory: every request fails and no block is its own.
/// It stands where a composite needs a child that is never to be used.
#[derive(Clone, Copy, Debug, Default, PartialEq, Eq, Structural)]
pub struct NullAlloc;

impl Allocator for NullAlloc {
    /// The outcome is a refusal.
    open spec fn alloc_step(
        pre: Self,
        layout: Layout,
        init: AllocInit,
        post: Self,
        outcome: Option<MemoryBlockView>,
    ) -> bool {
        outcome is None
    }

    /// Any block is taken, and nothing comes of it.
    open spec fn dealloc_step(pre: Self, memory: MemoryBlockView, post: Self) -> bool {
        true
    }

    /// The outcome is a refusal.
    open spec fn grow_step(
        pre: Self,
        memory: MemoryBlockView,
        new_size: usize,
        placement: ReallocPlacement,
        init: AllocInit,
        post: Self,
        outcome: Option<MemoryBlockView>,
    ) -> bool {
        outcome is None
    }

    /// The outcome is a refusal.
    open spec fn shrink_step(
        pre: Self,
        memory: MemoryBlockView,
        new_size: usize,
        placement: ReallocPlacement,
        post: Self,
        outcome: Option<MemoryBlockView>,
    ) -> bool {
        outcome is None
    }

    /// Fails.
    fn allocate(&mut self, layout: Layout, init: AllocInit) -> (result: Result<MemoryBlock, AllocErr>)
        ensures
            result is Err,
    {
        Err(AllocErr)
    }

    /// Does nothing: no block can come from this allocator.
    fn dealloc(&mut self, memory: MemoryBlock) {
    }

    /// Fails and leaves `memory` as it is.
    fn grow(
        &mut self,
        memory: &mut MemoryBlock,
        new_size: usize,
        placement: ReallocPlacement,
        init: AllocInit,
    ) -> (result: Result<(), AllocErr>)
        ensures
            result is Err,
    {
        Err(AllocErr)
    }

    /// Fails and leaves `memory` as it is.
    fn shrink(
        &mut self,
        memory: &mut MemoryBlock,
        new_size: usize,
        placement: ReallocPlacement,
    ) -> (result: Result<(), AllocErr>)
        ensures
            result is Err,
    {
        Err(AllocErr)
    }
}

impl Owns for NullAlloc {
    /// No block is owned.
    open spec fn owns_spec(&self, memory: MemoryBlockView) -> bool {
        false
    }

    /// Returns false.
    fn owns(&self, memory: &MemoryBlock) -> (r: bool)
        ensures
            !r,
    {
        false
    }
}

} // verus!
