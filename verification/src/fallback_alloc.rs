//! Two allocators in a row: the second serves what the first cannot.

use crate::allocator::{granted, resized, Allocator, Owns};
use crate::layout::Layout;
use crate::memory::{AllocErr, AllocInit, MemoryBlock, MemoryBlockView, ReallocPlacement};
use crate::relocate::{relocation, relocation_layout, settle, settled, target_layout};
use vstd::prelude::*;

verus! {

/// An allocator that asks `primary` first and `secondary` only where `primary`
/// fails. Blocks go back to the child that owns them, and a block that its
/// owner cannot resize may move to the other child.
#[derive(Debug)]
pub struct FallbackAlloc<A1, A2> {
    /// The allocator that is asked first.
    pub primary: A1,
    /// The allocator that is asked where `primary` fails.
    pub secondary: A2,
}

impl<A1: Allocator + Owns, A2: Allocator + Owns> FallbackAlloc<A1, A2> {
    /// The course of a resize that the owner, the secondary allocator, has
    /// refused and left in state `secondary`: where `relocation_layout` gives a
    /// layout, the composite is asked for a new block as `allocate` would ask it,
    /// primary first, and the old block goes back to the secondary allocator.
    pub open spec fn moved_from_secondary(
        primary: A1,
        secondary: A2,
        memory: MemoryBlockView,
        new_size: usize,
        placement: ReallocPlacement,
        init: AllocInit,
        post: Self,
        outcome: Option<MemoryBlockView>,
    ) -> bool {
        match relocation_layout(memory, new_size, placement) {
            Some(layout) => exists|holding: A2, fresh: Option<MemoryBlockView>|
                #[trigger] Self::alloc_step(
                    FallbackAlloc { primary, secondary },
                    layout,
                    init,
                    FallbackAlloc { primary: post.primary, secondary: holding },
                    fresh,
                ) && settled(holding, memory, fresh, post.secondary, outcome),
            None => post.primary == primary && post.secondary == secondary && outcome is None,
        }
    }

    /// Moves `memory`, which the secondary allocator owns and could not resize,
    /// into a new block of `new_size` bytes from whichever child has one, primary
    /// first.
    fn move_from_secondary(
        &mut self,
        memory: &mut MemoryBlock,
        new_size: usize,
        placement: ReallocPlacement,
        init: AllocInit,
    ) -> (result: Result<(), AllocErr>)
        ensures
            Self::moved_from_secondary(
                old(self).primary,
                old(self).secondary,
                old(memory)@,
                new_size,
                placement,
                init,
                *final(self),
                resized(result, final(memory)@),
            ),
            result is Ok && new_size >= old(memory)@.size() ==> final(memory)@.grown_from(
                old(memory)@,
                new_size,
                placement,
                init,
            ),
            result is Ok && new_size <= old(memory)@.size() ==> final(memory)@.shrunk_from(
                old(memory)@,
                new_size,
                placement,
            ),
            result is Err ==> final(memory)@ == old(memory)@,
    {
        match target_layout(memory, new_size, placement) {
            Some(layout) => {
                let fresh = self.allocate(layout, init);
                let ghost holding = self.secondary;
                let ghost answer = granted(fresh);
                let result = settle(&mut self.secondary, memory, fresh);
                proof {
                    assert(Self::alloc_step(
                        FallbackAlloc { primary: old(self).primary, secondary: old(self).secondary },
                        layout,
                        init,
                        FallbackAlloc { primary: self.primary, secondary: holding },
                        answer,
                    ));
                }
                result
            },
            None => Err(AllocErr),
        }
    }
}

impl<A1: Allocator + Owns, A2: Allocator + Owns> FallbackAlloc<A1, A2> {
    /// In every `allocate` the primary allocator is asked once. If it has a
    /// block, that block is the outcome and the secondary allocator is left as
    /// it was. If it has none, the secondary allocator is asked once, and its
    /// answer is the outcome.
    pub proof fn lemma_primary_first(
        pre: Self,
        layout: Layout,
        init: AllocInit,
        post: Self,
        outcome: Option<MemoryBlockView>,
    )
        requires
            Self::alloc_step(pre, layout, init, post, outcome),
        ensures
            exists|first: Option<MemoryBlockView>|
                {
                    &&& #[trigger] A1::alloc_step(pre.primary, layout, init, post.primary, first)
                    &&& first is Some ==> outcome == first && post.secondary == pre.secondary
                    &&& first is None ==> A2::alloc_step(
                        pre.secondary,
                        layout,
                        init,
                        post.secondary,
                        outcome,
                    )
                },
    {
        if outcome is Some && A1::alloc_step(pre.primary, layout, init, post.primary, outcome)
            && post.secondary == pre.secondary {
        } else {
            assert(A1::alloc_step(pre.primary, layout, init, post.primary, None));
        }
    }
}

impl<A1: Allocator + Owns, A2: Allocator + Owns> Allocator for FallbackAlloc<A1, A2> {
    /// The primary allocator is asked. If it has a block, that is the outcome
    /// and the secondary allocator is not touched; if it has none, the secondary
    /// allocator is asked once, and its answer is the outcome.
    open spec fn alloc_step(
        pre: Self,
        layout: Layout,
        init: AllocInit,
        post: Self,
        outcome: Option<MemoryBlockView>,
    ) -> bool {
        ||| {
            &&& outcome is Some
            &&& A1::alloc_step(pre.primary, layout, init, post.primary, outcome)
            &&& post.secondary == pre.secondary
        }
        ||| {
            &&& A1::alloc_step(pre.primary, layout, init, post.primary, None)
            &&& A2::alloc_step(pre.secondary, layout, init, post.secondary, outcome)
        }
    }

    /// The block goes to the primary allocator if that owns it, and to the
    /// secondary allocator otherwise; the other child is not touched.
    open spec fn dealloc_step(pre: Self, memory: MemoryBlockView, post: Self) -> bool {
        if pre.primary.owns_spec(memory) {
            A1::dealloc_step(pre.primary, memory, post.primary) && post.secondary == pre.secondary
        } else {
            A2::dealloc_step(pre.secondary, memory, post.secondary) && post.primary == pre.primary
        }
    }

    /// The child that owns the block is asked to grow it. If it does, the other
    /// child is not touched. If the primary allocator owns the block and
    /// refuses, the block is relocated from the primary to the secondary
    /// allocator. If the secondary allocator owns the block and refuses, the
    /// block moves as `moved_from_secondary` says. A block that neither child
    /// owns is refused, and nothing changes.
    open spec fn grow_step(
        pre: Self,
        memory: MemoryBlockView,
        new_size: usize,
        placement: ReallocPlacement,
        init: AllocInit,
        post: Self,
        outcome: Option<MemoryBlockView>,
    ) -> bool {
        if pre.primary.owns_spec(memory) {
            ||| {
                &&& outcome is Some
                &&& A1::grow_step(
                    pre.primary,
                    memory,
                    new_size,
                    placement,
                    init,
                    post.primary,
                    outcome,
                )
                &&& post.secondary == pre.secondary
            }
            ||| exists|refused: A1|
                {
                    &&& #[trigger] A1::grow_step(
                        pre.primary,
                        memory,
                        new_size,
                        placement,
                        init,
                        refused,
                        None,
                    )
                    &&& relocation(
                        refused,
                        pre.secondary,
                        memory,
                        new_size,
                        placement,
                        init,
                        post.primary,
                        post.secondary,
                        outcome,
                    )
                }
        } else if pre.secondary.owns_spec(memory) {
            ||| {
                &&& outcome is Some
                &&& A2::grow_step(
                    pre.secondary,
                    memory,
                    new_size,
                    placement,
                    init,
                    post.secondary,
                    outcome,
                )
                &&& post.primary == pre.primary
            }
            ||| exists|refused: A2|
                {
                    &&& #[trigger] A2::grow_step(
                        pre.secondary,
                        memory,
                        new_size,
                        placement,
                        init,
                        refused,
                        None,
                    )
                    &&& Self::moved_from_secondary(
                        pre.primary,
                        refused,
                        memory,
                        new_size,
                        placement,
                        init,
                        post,
                        outcome,
                    )
                }
        } else {
            post.primary == pre.primary && post.secondary == pre.secondary && outcome is None
        }
    }

    /// As `grow_step`, with shrinking in place of growing; a block that moves is
    /// moved into an uninitialized block.
    open spec fn shrink_step(
        pre: Self,
        memory: MemoryBlockView,
        new_size: usize,
        placement: ReallocPlacement,
        post: Self,
        outcome: Option<MemoryBlockView>,
    ) -> bool {
        if pre.primary.owns_spec(memory) {
            ||| {
                &&& outcome is Some
                &&& A1::shrink_step(pre.primary, memory, new_size, placement, post.primary, outcome)
                &&& post.secondary == pre.secondary
            }
            ||| exists|refused: A1|
                {
                    &&& #[trigger] A1::shrink_step(
                        pre.primary,
                        memory,
                        new_size,
                        placement,
                        refused,
                        None,
                    )
                    &&& relocation(
                        refused,
                        pre.secondary,
                        memory,
                        new_size,
                        placement,
                        AllocInit::Uninitialized,
                        post.primary,
                        post.secondary,
                        outcome,
                    )
                }
        } else if pre.secondary.owns_spec(memory) {
            ||| {
                &&& outcome is Some
                &&& A2::shrink_step(
                    pre.secondary,
                    memory,
                    new_size,
                    placement,
                    post.secondary,
                    outcome,
                )
                &&& post.primary == pre.primary
            }
            ||| exists|refused: A2|
                {
                    &&& #[trigger] A2::shrink_step(
                        pre.secondary,
                        memory,
                        new_size,
                        placement,
                        refused,
                        None,
                    )
                    &&& Self::moved_from_secondary(
                        pre.primary,
                        refused,
                        memory,
                        new_size,
                        placement,
                        AllocInit::Uninitialized,
                        post,
                        outcome,
                    )
                }
        } else {
            post.primary == pre.primary && post.secondary == pre.secondary && outcome is None
        }
    }

    /// Asks the primary allocator and, if that fails, the secondary allocator.
    /// The error, if both fail, is that of the secondary allocator.
    fn allocate(&mut self, layout: Layout, init: AllocInit) -> (result: Result<
        MemoryBlock,
        AllocErr,
    >) {
        match self.primary.allocate(layout, init) {
            Ok(block) => Ok(block),
            Err(_) => self.secondary.allocate(layout, init),
        }
    }

    /// Returns `memory` to the primary allocator if that owns it, and to the
    /// secondary allocator otherwise.
    fn dealloc(&mut self, memory: MemoryBlock) {
        if self.primary.owns(&memory) {
            self.primary.dealloc(memory)
        } else {
            self.secondary.dealloc(memory)
        }
    }

    /// Grows `memory` in the child that owns it or, where that child cannot and
    /// `placement` lets the block move, in another place: a block of the primary
    /// allocator moves to the secondary allocator, a block of the secondary
    /// allocator to whichever child has room, primary first.
    fn grow(
        &mut self,
        memory: &mut MemoryBlock,
        new_size: usize,
        placement: ReallocPlacement,
        init: AllocInit,
    ) -> (result: Result<(), AllocErr>) {
        if self.primary.owns(memory) {
            match self.primary.grow(memory, new_size, placement, init) {
                Ok(()) => Ok(()),
                Err(_) => crate::relocate::grow(
                    &mut self.primary,
                    &mut self.secondary,
                    memory,
                    new_size,
                    placement,
                    init,
                ),
            }
        } else if self.secondary.owns(memory) {
            match self.secondary.grow(memory, new_size, placement, init) {
                Ok(()) => Ok(()),
                Err(_) => self.move_from_secondary(memory, new_size, placement, init),
            }
        } else {
            Err(AllocErr)
        }
    }

    /// Shrinks `memory` in the child that owns it or, where that child cannot
    /// and `placement` lets the block move, in another place, as `grow` does.
    fn shrink(
        &mut self,
        memory: &mut MemoryBlock,
        new_size: usize,
        placement: ReallocPlacement,
    ) -> (result: Result<(), AllocErr>) {
        if self.primary.owns(memory) {
            match self.primary.shrink(memory, new_size, placement) {
                Ok(()) => Ok(()),
                Err(_) => crate::relocate::shrink(
                    &mut self.primary,
                    &mut self.secondary,
                    memory,
                    new_size,
                    placement,
                ),
            }
        } else if self.secondary.owns(memory) {
            match self.secondary.shrink(memory, new_size, placement) {
                Ok(()) => Ok(()),
                Err(_) => self.move_from_secondary(
                    memory,
                    new_size,
                    placement,
                    AllocInit::Uninitialized,
                ),
            }
        } else {
            Err(AllocErr)
        }
    }
}

impl<A1: Owns, A2: Owns> Owns for FallbackAlloc<A1, A2> {
    /// A block is owned if one of the two children owns it.
    open spec fn owns_spec(&self, memory: MemoryBlockView) -> bool {
        self.primary.owns_spec(memory) || self.secondary.owns_spec(memory)
    }

    /// Returns whether one of the two children owns `memory`.
    fn owns(&self, memory: &MemoryBlock) -> (r: bool) {
        self.primary.owns(memory) || self.secondary.owns(memory)
    }
}

} // verus!
