//! Resizing a block by moving it from one allocator to another.
//!
//! A composite uses these routines where no child can resize a block on its
//! own: a new block is taken from the target, the contents are copied, and the
//! old block goes back to the allocator it came from.

use crate::allocator::{granted, resized, Allocator};
use crate::layout::{valid_size_align, Layout};
use crate::memory::{AllocErr, AllocInit, MemoryBlock, MemoryBlockView, ReallocPlacement};
use vstd::prelude::*;

verus! {

/// The layout that a relocation of `memory` to `new_size` asks of its target:
/// none where the block must stay in place, and none where `new_size` does not
/// form a valid layout with the alignment of the block.
pub open spec fn relocation_layout(
    memory: MemoryBlockView,
    new_size: usize,
    placement: ReallocPlacement,
) -> Option<Layout> {
    if placement is MayMove && valid_size_align(new_size as int, memory.align as int) {
        Some(Layout::spec_from_size_align(new_size, memory.align))
    } else {
        None
    }
}

/// How a relocation ends once the target has answered with `fresh`. With a new
/// block the contents move into it and the old block goes back to its
/// allocator, which thereby goes from `from_pre` to `from_post`. Without one
/// nothing changes.
pub open spec fn settled<A: Allocator>(
    from_pre: A,
    memory: MemoryBlockView,
    fresh: Option<MemoryBlockView>,
    from_post: A,
    outcome: Option<MemoryBlockView>,
) -> bool {
    match fresh {
        Some(block) => A::dealloc_step(from_pre, memory, from_post) && outcome == Some(
            memory.moved_into(block),
        ),
        None => from_post == from_pre && outcome is None,
    }
}

/// The course of a relocation of `memory` from one allocator to another: where
/// `relocation_layout` gives a layout, the target is asked once for it, and the
/// relocation ends as `settled` says; where it gives none, nothing is asked of
/// either allocator and nothing changes.
pub open spec fn relocation<A1: Allocator, A2: Allocator>(
    from_pre: A1,
    to_pre: A2,
    memory: MemoryBlockView,
    new_size: usize,
    placement: ReallocPlacement,
    init: AllocInit,
    from_post: A1,
    to_post: A2,
    outcome: Option<MemoryBlockView>,
) -> bool {
    match relocation_layout(memory, new_size, placement) {
        Some(layout) => exists|fresh: Option<MemoryBlockView>|
            #[trigger] A2::alloc_step(to_pre, layout, init, to_post, fresh) && settled(
                from_pre,
                memory,
                fresh,
                from_post,
                outcome,
            ),
        None => from_post == from_pre && to_post == to_pre && outcome is None,
    }
}

/// Computes the layout that a relocation of `memory` to `new_size` asks for.
pub fn target_layout(memory: &MemoryBlock, new_size: usize, placement: ReallocPlacement) -> (r:
    Option<Layout>)
    ensures
        r == relocation_layout(memory@, new_size, placement),
        r matches Some(layout) ==> layout.size() == new_size && layout.align() == memory@.align,
{
    match placement {
        ReallocPlacement::MayMove => Layout::from_size_align(new_size, memory.align()),
        ReallocPlacement::InPlace => None,
    }
}

/// Ends a relocation: given what the target answered, moves the contents of
/// `memory` into the new block and returns the old one to `from`, or fails and
/// changes nothing if there is no new block.
pub fn settle<A: Allocator>(
    from: &mut A,
    memory: &mut MemoryBlock,
    fresh: Result<MemoryBlock, AllocErr>,
) -> (result: Result<(), AllocErr>)
    ensures
        settled(
            *old(from),
            old(memory)@,
            granted(fresh),
            *final(from),
            resized(result, final(memory)@),
        ),
        result is Ok <==> fresh is Ok,
        result is Err ==> final(memory)@ == old(memory)@,
{
    match fresh {
        Ok(block) => {
            let left = memory.relocate(block);
            from.dealloc(left);
            Ok(())
        },
        Err(e) => Err(e),
    }
}

/// Grows `memory` to at least `new_size` bytes by moving it from `from` to `to`.
///
/// Fails at once unless `placement` is `ReallocPlacement::MayMove`: a block
/// cannot pass from one allocator to another and stay in place. Otherwise asks
/// `to` for a block of `new_size` bytes with the alignment of `memory` and
/// contents `init`, copies the bytes of `memory` to its start, returns the old
/// block to `from` and makes the new block `memory`. If `to` has no block to
/// give, `memory` and `from` are untouched.
pub fn grow<A1: Allocator, A2: Allocator>(
    from: &mut A1,
    to: &mut A2,
    memory: &mut MemoryBlock,
    new_size: usize,
    placement: ReallocPlacement,
    init: AllocInit,
) -> (result: Result<(), AllocErr>)
    requires
        new_size >= old(memory)@.size(),
    ensures
        relocation(
            *old(from),
            *old(to),
            old(memory)@,
            new_size,
            placement,
            init,
            *final(from),
            *final(to),
            resized(result, final(memory)@),
        ),
        result is Ok ==> final(memory)@.grown_from(old(memory)@, new_size, placement, init),
        result is Err ==> final(memory)@ == old(memory)@,
        placement is InPlace ==> result is Err && *final(from) == *old(from) && *final(to) == *old(
            to,
        ),
{
    match target_layout(memory, new_size, placement) {
        Some(layout) => {
            let fresh = to.allocate(layout, init);
            settle(from, memory, fresh)
        },
        None => Err(AllocErr),
    }
}

/// Shrinks `memory` to `new_size` bytes or a little more by moving it from
/// `from` to `to`.
///
/// Fails at once unless `placement` is `ReallocPlacement::MayMove`. Otherwise
/// asks `to` for an uninitialized block of `new_size` bytes with the alignment
/// of `memory`, copies as many bytes from the start of `memory` as the new
/// block holds, returns the old block to `from` and makes the new block
/// `memory`. If `to` has no block to give, `memory` and `from` are untouched.
pub fn shrink<A1: Allocator, A2: Allocator>(
    from: &mut A1,
    to: &mut A2,
    memory: &mut MemoryBlock,
    new_size: usize,
    placement: ReallocPlacement,
) -> (result: Result<(), AllocErr>)
    requires
        new_size <= old(memory)@.size(),
    ensures
        relocation(
            *old(from),
            *old(to),
            old(memory)@,
            new_size,
            placement,
            AllocInit::Uninitialized,
            *final(from),
            *final(to),
            resized(result, final(memory)@),
        ),
        result is Ok ==> final(memory)@.shrunk_from(old(memory)@, new_size, placement),
        result is Err ==> final(memory)@ == old(memory)@,
        placement is InPlace ==> result is Err && *final(from) == *old(from) && *final(to) == *old(
            to,
        ),
{
    match target_layout(memory, new_size, placement) {
        Some(layout) => {
            let fresh = to.allocate(layout, AllocInit::Uninitialized);
            settle(from, memory, fresh)
        },
        None => Err(AllocErr),
    }
}

} // verus!
