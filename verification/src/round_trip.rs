//! What is left of a block that was handed out and taken straight back: nothing
//! that an ownership query could tell.
//!
//! No allocator has to meet this. The module says what it means for an
//! allocator to be orderly, and proves that the structures of this crate are
//! orderly when their children are.

use crate::allocator::{Allocator, Owns};
use crate::callback::CallbackRef;
use crate::fallback_alloc::FallbackAlloc;
use crate::layout::Layout;
use crate::memory::{AllocInit, MemoryBlockView};
use crate::null_alloc::NullAlloc;
use crate::proxy::Proxy;
use crate::segregate_alloc::SegregateAlloc;
use vstd::prelude::*;

verus! {

/// Whether `post` answers every ownership query as `pre` does.
pub open spec fn same_answers<A: Owns>(pre: A, post: A) -> bool {
    forall|other: MemoryBlockView| #[trigger] post.owns_spec(other) == pre.owns_spec(other)
}

/// Whether `post` answers as `pre` does every ownership query about a block
/// at another address than `block`.
pub open spec fn same_answers_apart_from<A: Owns>(pre: A, post: A, block: MemoryBlockView) -> bool {
    forall|other: MemoryBlockView|
        other.addr != block.addr ==> #[trigger] post.owns_spec(other) == pre.owns_spec(other)
}

/// Whether an allocator of type `A` owns each block at the moment at which it
/// has handed it out.
pub open spec fn owns_what_it_grants<A: Allocator + Owns>() -> bool {
    forall|pre: A, layout: Layout, init: AllocInit, post: A, block: MemoryBlockView| #[trigger]
        A::alloc_step(pre, layout, init, post, Some(block)) ==> post.owns_spec(block)
}

/// Whether an allocator of type `A` answers every ownership query as before
/// after it has refused a request.
pub open spec fn refusal_leaves_answers<A: Allocator + Owns>() -> bool {
    forall|pre: A, layout: Layout, init: AllocInit, post: A| #[trigger]
        A::alloc_step(pre, layout, init, post, None) ==> same_answers(pre, post)
}

/// Whether an allocator of type `A` that has handed out a block and taken it
/// straight back answers as before every ownership query about a block at
/// another address.
pub open spec fn round_trip_leaves_answers<A: Allocator + Owns>() -> bool {
    forall|pre: A, layout: Layout, init: AllocInit, held: A, block: MemoryBlockView, post: A|
        #[trigger] A::alloc_step(pre, layout, init, held, Some(block)) && #[trigger] A::dealloc_step(
            held,
            block,
            post,
        ) ==> same_answers_apart_from(pre, post, block)
}

/// Whether allocators of type `A` are orderly: they own what they hand out,
/// a refusal changes no answer, and neither does a block that is handed out
/// and taken straight back.
pub open spec fn orderly<A: Allocator + Owns>() -> bool {
    &&& owns_what_it_grants::<A>()
    &&& refusal_leaves_answers::<A>()
    &&& round_trip_leaves_answers::<A>()
}

/// An orderly allocator that hands out a block and takes it straight back
/// answers afterwards as before every ownership query about a block at another
/// address.
pub proof fn lemma_round_trip<A: Allocator + Owns>(
    pre: A,
    layout: Layout,
    init: AllocInit,
    held: A,
    block: MemoryBlockView,
    post: A,
    other: MemoryBlockView,
)
    requires
        orderly::<A>(),
        A::alloc_step(pre, layout, init, held, Some(block)),
        A::dealloc_step(held, block, post),
        other.addr != block.addr,
    ensures
        post.owns_spec(other) == pre.owns_spec(other),
{
    assert(same_answers_apart_from(pre, post, block));
}

/// `NullAlloc` is orderly: it never hands out a block, and it owns nothing
/// whatever happens.
pub proof fn lemma_null_alloc_orderly()
    ensures
        orderly::<NullAlloc>(),
{
}

/// A `Proxy` is orderly if its allocator is.
pub proof fn lemma_proxy_orderly<A: Allocator + Owns, C: CallbackRef>()
    requires
        orderly::<A>(),
    ensures
        orderly::<Proxy<A, C>>(),
{
    assert forall|
        pre: Proxy<A, C>,
        layout: Layout,
        init: AllocInit,
        post: Proxy<A, C>,
        block: MemoryBlockView,
    | #[trigger]
        Proxy::<A, C>::alloc_step(pre, layout, init, post, Some(block)) implies post.owns_spec(
        block,
    ) by {
        assert(A::alloc_step(pre.allocator, layout, init, post.allocator, Some(block)));
    }
    assert forall|pre: Proxy<A, C>, layout: Layout, init: AllocInit, post: Proxy<A, C>| #[trigger]
        Proxy::<A, C>::alloc_step(pre, layout, init, post, None) implies same_answers(
        pre,
        post,
    ) by {
        assert(A::alloc_step(pre.allocator, layout, init, post.allocator, None));
        assert(same_answers(pre.allocator, post.allocator));
    }
    assert forall|
        pre: Proxy<A, C>,
        layout: Layout,
        init: AllocInit,
        held: Proxy<A, C>,
        block: MemoryBlockView,
        post: Proxy<A, C>,
    | #[trigger]
        Proxy::<A, C>::alloc_step(pre, layout, init, held, Some(block)) && #[trigger] Proxy::<
            A,
            C,
        >::dealloc_step(held, block, post) implies same_answers_apart_from(pre, post, block) by {
        assert(A::alloc_step(pre.allocator, layout, init, held.allocator, Some(block)));
        assert(A::dealloc_step(held.allocator, block, post.allocator));
        assert(same_answers_apart_from(pre.allocator, post.allocator, block));
    }
}

/// Whether no allocator of type `A1` ever claims a block that an allocator of
/// type `A2` has handed out.
pub open spec fn leaves_grants_alone<A1: Owns, A2: Allocator>() -> bool {
    forall|claimant: A1, pre: A2, layout: Layout, init: AllocInit, post: A2, block: MemoryBlockView|
     #[trigger]
        A2::alloc_step(pre, layout, init, post, Some(block)) ==> !#[trigger] claimant.owns_spec(
            block,
        )
}

/// A `FallbackAlloc` is orderly if its children are and the primary allocator
/// claims no block of the secondary allocator.
pub proof fn lemma_fallback_orderly<A1: Allocator + Owns, A2: Allocator + Owns>()
    requires
        orderly::<A1>(),
        orderly::<A2>(),
        leaves_grants_alone::<A1, A2>(),
    ensures
        orderly::<FallbackAlloc<A1, A2>>(),
{
    assert forall|
        pre: FallbackAlloc<A1, A2>,
        layout: Layout,
        init: AllocInit,
        post: FallbackAlloc<A1, A2>,
        block: MemoryBlockView,
    | #[trigger]
        FallbackAlloc::<A1, A2>::alloc_step(
            pre,
            layout,
            init,
            post,
            Some(block),
        ) implies post.owns_spec(block) by {
        if A1::alloc_step(pre.primary, layout, init, post.primary, Some(block)) {
        } else {
            assert(A2::alloc_step(pre.secondary, layout, init, post.secondary, Some(block)));
        }
    }
    assert forall|
        pre: FallbackAlloc<A1, A2>,
        layout: Layout,
        init: AllocInit,
        post: FallbackAlloc<A1, A2>,
    | #[trigger]
        FallbackAlloc::<A1, A2>::alloc_step(pre, layout, init, post, None) implies same_answers(
        pre,
        post,
    ) by {
        assert(A1::alloc_step(pre.primary, layout, init, post.primary, None));
        assert(A2::alloc_step(pre.secondary, layout, init, post.secondary, None));
        assert(same_answers(pre.primary, post.primary));
        assert(same_answers(pre.secondary, post.secondary));
    }
    assert forall|
        pre: FallbackAlloc<A1, A2>,
        layout: Layout,
        init: AllocInit,
        held: FallbackAlloc<A1, A2>,
        block: MemoryBlockView,
        post: FallbackAlloc<A1, A2>,
    | #[trigger]
        FallbackAlloc::<A1, A2>::alloc_step(pre, layout, init, held, Some(block))
            && #[trigger] FallbackAlloc::<A1, A2>::dealloc_step(
            held,
            block,
            post,
        ) implies same_answers_apart_from(pre, post, block) by {
        if A1::alloc_step(pre.primary, layout, init, held.primary, Some(block)) && held.secondary
            == pre.secondary {
            assert(held.primary.owns_spec(block));
            assert(A1::dealloc_step(held.primary, block, post.primary));
            assert(same_answers_apart_from(pre.primary, post.primary, block));
        } else {
            assert(A1::alloc_step(pre.primary, layout, init, held.primary, None));
            assert(A2::alloc_step(pre.secondary, layout, init, held.secondary, Some(block)));
            assert(same_answers(pre.primary, held.primary));
            assert(!held.primary.owns_spec(block));
            assert(A2::dealloc_step(held.secondary, block, post.secondary));
            assert(same_answers_apart_from(pre.secondary, post.secondary, block));
        }
    }
}

/// Whether an allocator of type `Small` answers a request for up to
/// `threshold` bytes with a block of up to `threshold` bytes, and an allocator
/// of type `Large` a request for more with a block of more.
pub open spec fn keep_to_their_sizes<Small: Allocator, Large: Allocator>(threshold: usize) -> bool {
    &&& forall|pre: Small, layout: Layout, init: AllocInit, post: Small, block: MemoryBlockView|
     #[trigger]
        Small::alloc_step(pre, layout, init, post, Some(block)) && layout.size() <= threshold
            ==> block.size() <= threshold
    &&& forall|pre: Large, layout: Layout, init: AllocInit, post: Large, block: MemoryBlockView|
     #[trigger]
        Large::alloc_step(pre, layout, init, post, Some(block)) && layout.size() > threshold
            ==> block.size() > threshold
}

/// A `SegregateAlloc` is orderly if its children are and each hands out blocks
/// of the sizes that it is asked for.
pub proof fn lemma_segregate_orderly<
    Small: Allocator + Owns,
    Large: Allocator + Owns,
    const THRESHOLD: usize,
>()
    requires
        orderly::<Small>(),
        orderly::<Large>(),
        keep_to_their_sizes::<Small, Large>(THRESHOLD),
    ensures
        orderly::<SegregateAlloc<Small, Large, THRESHOLD>>(),
{
    assert forall|
        pre: SegregateAlloc<Small, Large, THRESHOLD>,
        layout: Layout,
        init: AllocInit,
        post: SegregateAlloc<Small, Large, THRESHOLD>,
        block: MemoryBlockView,
    | #[trigger]
        SegregateAlloc::<Small, Large, THRESHOLD>::alloc_step(
            pre,
            layout,
            init,
            post,
            Some(block),
        ) implies post.owns_spec(block) by {
        if layout.size() <= THRESHOLD {
            assert(Small::alloc_step(pre.small, layout, init, post.small, Some(block)));
        } else {
            assert(Large::alloc_step(pre.large, layout, init, post.large, Some(block)));
        }
    }
    assert forall|
        pre: SegregateAlloc<Small, Large, THRESHOLD>,
        layout: Layout,
        init: AllocInit,
        post: SegregateAlloc<Small, Large, THRESHOLD>,
    | #[trigger]
        SegregateAlloc::<Small, Large, THRESHOLD>::alloc_step(
            pre,
            layout,
            init,
            post,
            None,
        ) implies same_answers(pre, post) by {
        if layout.size() <= THRESHOLD {
            assert(Small::alloc_step(pre.small, layout, init, post.small, None));
            assert(same_answers(pre.small, post.small));
        } else {
            assert(Large::alloc_step(pre.large, layout, init, post.large, None));
            assert(same_answers(pre.large, post.large));
        }
    }
    assert forall|
        pre: SegregateAlloc<Small, Large, THRESHOLD>,
        layout: Layout,
        init: AllocInit,
        held: SegregateAlloc<Small, Large, THRESHOLD>,
        block: MemoryBlockView,
        post: SegregateAlloc<Small, Large, THRESHOLD>,
    | #[trigger]
        SegregateAlloc::<Small, Large, THRESHOLD>::alloc_step(pre, layout, init, held, Some(block))
            && #[trigger] SegregateAlloc::<Small, Large, THRESHOLD>::dealloc_step(
            held,
            block,
            post,
        ) implies same_answers_apart_from(pre, post, block) by {
        if layout.size() <= THRESHOLD {
            assert(Small::alloc_step(pre.small, layout, init, held.small, Some(block)));
            assert(Small::dealloc_step(held.small, block, post.small));
            assert(same_answers_apart_from(pre.small, post.small, block));
        } else {
            assert(Large::alloc_step(pre.large, layout, init, held.large, Some(block)));
            assert(Large::dealloc_step(held.large, block, post.large));
            assert(same_answers_apart_from(pre.large, post.large, block));
        }
    }
}

} // verus!
