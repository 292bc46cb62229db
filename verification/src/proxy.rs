//! An allocator under observation.

use crate::allocator::{Allocator, Owns};
use crate::callback::CallbackRef;
use crate::layout::Layout;
use crate::memory::{AllocErr, AllocInit, MemoryBlock, MemoryBlockView, ReallocPlacement};
use vstd::prelude::*;

verus! {

/// An allocator together with an observer. Every operation is passed on to
/// `allocator` unchanged, and `callbacks` is told of it afterwards; what the
/// operation returns is what `allocator` returned.
#[derive(Debug)]
pub struct Proxy<A, C> {
    /// The allocator that does the work.
    pub allocator: A,
    /// The observer that is told of every operation.
    pub callbacks: C,
}

impl<A: Allocator, C: CallbackRef> Allocator for Proxy<A, C> {
    /// The allocator takes its step, and the observer is told of it.
    open spec fn alloc_step(
        pre: Self,
        layout: Layout,
        init: AllocInit,
        post: Self,
        outcome: Option<MemoryBlockView>,
    ) -> bool {
        &&& A::alloc_step(pre.allocator, layout, init, post.allocator, outcome)
        &&& C::allocate_noted(pre.callbacks, layout, init, outcome, post.callbacks)
    }

    /// The allocator takes its step, and the observer is told of it.
    open spec fn dealloc_step(pre: Self, memory: MemoryBlockView, post: Self) -> bool {
        &&& A::dealloc_step(pre.allocator, memory, post.allocator)
        &&& C::dealloc_noted(pre.callbacks, memory.addr, memory.layout(), post.callbacks)
    }

    /// The allocator takes its step, and the observer is told of it.
    open spec fn grow_step(
        pre: Self,
        memory: MemoryBlockView,
        new_size: usize,
        placement: ReallocPlacement,
        init: AllocInit,
        post: Self,
        outcome: Option<MemoryBlockView>,
    ) -> bool {
        &&& A::grow_step(pre.allocator, memory, new_size, placement, init, post.allocator, outcome)
        &&& C::grow_noted(
            pre.callbacks,
            memory.addr,
            memory.layout(),
            new_size,
            placement,
            init,
            outcome,
            post.callbacks,
        )
    }

    /// The allocator takes its step, and the observer is told of it.
    open spec fn shrink_step(
        pre: Self,
        memory: MemoryBlockView,
        new_size: usize,
        placement: ReallocPlacement,
        post: Self,
        outcome: Option<MemoryBlockView>,
    ) -> bool {
        &&& A::shrink_step(pre.allocator, memory, new_size, placement, post.allocator, outcome)
        &&& C::shrink_noted(
            pre.callbacks,
            memory.addr,
            memory.layout(),
            new_size,
            placement,
            outcome,
            post.callbacks,
        )
    }

    /// Asks `allocator`, tells `callbacks`, and returns what `allocator`
    /// returned.
    fn allocate(&mut self, layout: Layout, init: AllocInit) -> (result: Result<
        MemoryBlock,
        AllocErr,
    >) {
        let result = self.allocator.allocate(layout, init);
        match &result {
            Ok(block) => self.callbacks.allocate(layout, init, Ok(block)),
            Err(e) => self.callbacks.allocate(layout, init, Err(*e)),
        }
        result
    }

    /// Returns `memory` to `allocator` and tells `callbacks`.
    fn dealloc(&mut self, memory: MemoryBlock) {
        let addr = memory.addr();
        let layout = memory.layout();
        self.allocator.dealloc(memory);
        self.callbacks.dealloc(addr, layout);
    }

    /// Lets `allocator` grow `memory`, tells `callbacks`, and returns what
    /// `allocator` returned.
    fn grow(
        &mut self,
        memory: &mut MemoryBlock,
        new_size: usize,
        placement: ReallocPlacement,
        init: AllocInit,
    ) -> (result: Result<(), AllocErr>) {
        let addr = memory.addr();
        let layout = memory.layout();
        let result = self.allocator.grow(memory, new_size, placement, init);
        match result {
            Ok(_) => self.callbacks.grow(addr, layout, new_size, placement, init, Ok(&*memory)),
            Err(e) => self.callbacks.grow(addr, layout, new_size, placement, init, Err(e)),
        }
        result
    }

    /// Lets `allocator` shrink `memory`, tells `callbacks`, and returns what
    /// `allocator` returned.
    fn shrink(
        &mut self,
        memory: &mut MemoryBlock,
        new_size: usize,
        placement: ReallocPlacement,
    ) -> (result: Result<(), AllocErr>) {
        let addr = memory.addr();
        let layout = memory.layout();
        let result = self.allocator.shrink(memory, new_size, placement);
        match result {
            Ok(_) => self.callbacks.shrink(addr, layout, new_size, placement, Ok(&*memory)),
            Err(e) => self.callbacks.shrink(addr, layout, new_size, placement, Err(e)),
        }
        result
    }
}

impl<A: Owns, C: CallbackRef> Proxy<A, C> {
    /// Asks `allocator` whether it owns `memory`, tells `callbacks` the answer,
    /// and returns it.
    pub fn owns_noted(&mut self, memory: &MemoryBlock) -> (r: bool)
        ensures
            r == old(self).allocator.owns_spec(memory@),
            final(self).allocator == old(self).allocator,
            C::owns_noted(old(self).callbacks, r, final(self).callbacks),
    {
        let r = self.allocator.owns(memory);
        self.callbacks.owns(r);
        r
    }
}

impl<A: Owns, C> Owns for Proxy<A, C> {
    /// A block is owned if the allocator owns it.
    open spec fn owns_spec(&self, memory: MemoryBlockView) -> bool {
        self.allocator.owns_spec(memory)
    }

    /// Returns whether `allocator` owns `memory`. The observer is not told: it
    /// cannot take note through a shared reference. `owns_noted` tells it.
    fn owns(&self, memory: &MemoryBlock) -> (r: bool) {
        self.allocator.owns(memory)
    }
}

} // verus!
