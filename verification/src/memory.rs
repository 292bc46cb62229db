//! Memory blocks and the tags that accompany a request.

use crate::layout::{is_power_of_two, valid_size_align, Layout};
use vstd::prelude::*;

verus! {

/// What a freshly handed out byte holds.
#[derive(Clone, Copy, Debug, PartialEq, Eq, Structural)]
pub enum AllocInit {
    /// The new bytes hold anything.
    Uninitialized,
    /// The new bytes hold zero.
    Zeroed,
}

/// Whether a resize may move the block.
#[derive(Clone, Copy, Debug, PartialEq, Eq, Structural)]
pub enum ReallocPlacement {
    /// The block may be moved to another address, its contents copied.
    MayMove,
    /// The address must stay; the resize fails where that is impossible.
    InPlace,
}

/// The one error of this crate: the request could not be satisfied.
#[derive(Clone, Copy, Debug, PartialEq, Eq, Structural)]
pub struct AllocErr;

/// A block as contracts see it: where it starts, how it is aligned, and the
/// bytes it holds.
pub struct MemoryBlockView {
    pub addr: usize,
    pub align: usize,
    pub bytes: Seq<u8>,
}

impl MemoryBlockView {
    /// The number of bytes in the block.
    pub open spec fn size(self) -> nat {
        self.bytes.len()
    }

    /// The layout that the block fills exactly.
    pub open spec fn layout(self) -> Layout {
        Layout::spec_from_size_align(self.bytes.len() as usize, self.align)
    }

    /// Whether every byte from `from` on is zero.
    pub open spec fn zero_from(self, from: int) -> bool {
        forall|i: int| from <= i < self.bytes.len() ==> self.bytes[i] == 0
    }

    /// Whether the block and `other` agree on the first `count` bytes.
    pub open spec fn same_prefix(self, other: MemoryBlockView, count: int) -> bool {
        forall|i: int| 0 <= i < count ==> self.bytes[i] == other.bytes[i]
    }

    /// Whether the block answers a request for `layout` with contents `init`.
    pub open spec fn satisfies(self, layout: Layout, init: AllocInit) -> bool {
        &&& self.size() >= layout.size()
        &&& self.align == layout.align()
        &&& self.addr % layout.align() == 0
        &&& init is Zeroed ==> self.zero_from(0)
    }

    /// Whether the block is `before` grown to at least `new_size` bytes.
    pub open spec fn grown_from(
        self,
        before: MemoryBlockView,
        new_size: usize,
        placement: ReallocPlacement,
        init: AllocInit,
    ) -> bool {
        &&& self.size() >= new_size
        &&& self.align == before.align
        &&& self.addr % self.align == 0
        &&& self.same_prefix(before, before.size() as int)
        &&& init is Zeroed ==> self.zero_from(before.size() as int)
        &&& placement is InPlace ==> self.addr == before.addr
    }

    /// Whether the block is `before` shrunk to `new_size` bytes or a little more.
    pub open spec fn shrunk_from(
        self,
        before: MemoryBlockView,
        new_size: usize,
        placement: ReallocPlacement,
    ) -> bool {
        &&& self.size() >= new_size
        &&& self.align == before.align
        &&& self.addr % self.align == 0
        &&& self.same_prefix(before, vstd::math::min(self.size() as int, before.size() as int))
        &&& placement is InPlace ==> self.addr == before.addr
    }

    /// The block `fresh` after the bytes of the block were copied to its start,
    /// as many as fit.
    pub open spec fn moved_into(self, fresh: MemoryBlockView) -> MemoryBlockView {
        MemoryBlockView {
            addr: fresh.addr,
            align: fresh.align,
            bytes: Seq::new(
                fresh.bytes.len(),
                |i: int| if i < self.bytes.len() { self.bytes[i] } else { fresh.bytes[i] },
            ),
        }
    }
}

/// A handle to a contiguous range of bytes: its address, its alignment and its
/// contents. Whoever holds the handle owns the bytes.
#[derive(Debug)]
pub struct MemoryBlock {
    addr: usize,
    align: usize,
    bytes: Vec<u8>,
}

impl View for MemoryBlock {
    type V = MemoryBlockView;

    closed spec fn view(&self) -> MemoryBlockView {
        MemoryBlockView { addr: self.addr, align: self.align, bytes: self.bytes@ }
    }
}

impl MemoryBlock {
    #[verifier::type_invariant]
    spec fn well_formed(self) -> bool {
        &&& valid_size_align(self.bytes.len() as int, self.align as int)
        &&& self.addr as int % self.align as int == 0
    }

    /// The block at `addr` that holds `bytes`, if `addr` is a multiple of `align`
    /// and the length of `bytes` forms a valid layout with `align`.
    pub fn new(addr: usize, align: usize, bytes: Vec<u8>) -> (r: Option<MemoryBlock>)
        ensures
            r is Some <==> valid_size_align(bytes.len() as int, align as int) && addr as int
                % align as int == 0,
            r matches Some(block) ==> block@ == (MemoryBlockView { addr, align, bytes: bytes@ }),
    {
        match Layout::from_size_align(bytes.len(), align) {
            Some(_) => {
                if addr % align == 0 {
                    Some(MemoryBlock { addr, align, bytes })
                } else {
                    None
                }
            },
            None => None,
        }
    }

    /// The address of the first byte.
    pub fn addr(&self) -> (r: usize)
        ensures
            r == self@.addr,
            r as int % self@.align as int == 0,
    {
        proof {
            use_type_invariant(self);
        }
        self.addr
    }

    /// The number of bytes.
    pub fn size(&self) -> (r: usize)
        ensures
            r == self@.size(),
    {
        self.bytes.len()
    }

    /// The alignment of the address, a power of two.
    pub fn align(&self) -> (r: usize)
        ensures
            r == self@.align,
            is_power_of_two(r as int),
    {
        proof {
            use_type_invariant(self);
        }
        self.align
    }

    /// The layout that the block fills exactly.
    pub fn layout(&self) -> (r: Layout)
        ensures
            r == self@.layout(),
            r.size() == self@.size(),
            r.align() == self@.align,
    {
        proof {
            use_type_invariant(self);
        }
        match Layout::from_size_align(self.bytes.len(), self.align) {
            Some(layout) => layout,
            None => {
                proof {
                    assert(false);
                }
                unreached()
            },
        }
    }

    /// The bytes of the block.
    pub fn bytes(&self) -> (r: &Vec<u8>)
        ensures
            r@ == self@.bytes,
    {
        &self.bytes
    }

    /// The byte at `offset`, if the block is that long.
    pub fn read(&self, offset: usize) -> (r: Option<u8>)
        ensures
            r == (if offset < self@.size() {
                Some(self@.bytes[offset as int])
            } else {
                None
            }),
    {
        if offset < self.bytes.len() {
            Some(self.bytes[offset])
        } else {
            None
        }
    }

    /// Stores `value` at `offset` and returns true, if the block is that long;
    /// otherwise changes nothing and returns false.
    pub fn write(&mut self, offset: usize, value: u8) -> (r: bool)
        ensures
            r == (offset < old(self)@.size()),
            final(self)@ == (if r {
                MemoryBlockView {
                    bytes: old(self)@.bytes.update(offset as int, value),
                    ..old(self)@
                }
            } else {
                old(self)@
            }),
    {
        proof {
            use_type_invariant(&*self);
        }
        if offset < self.bytes.len() {
            self.bytes[offset] = value;
            true
        } else {
            false
        }
    }

    /// Moves the block into `fresh`: copies the bytes of the block to the start
    /// of `fresh`, as many as fit, makes `fresh` the block, and returns the block
    /// as it was.
    pub fn relocate(&mut self, fresh: MemoryBlock) -> (left: MemoryBlock)
        ensures
            left@ == old(self)@,
            final(self)@ == old(self)@.moved_into(fresh@),
    {
        proof {
            use_type_invariant(&fresh);
        }
        let ghost target = fresh@;
        let MemoryBlock { addr, align, bytes } = fresh;
        let mut data = bytes;
        let count = if self.bytes.len() < data.len() {
            self.bytes.len()
        } else {
            data.len()
        };
        let mut i: usize = 0;
        while i < count
            invariant
                i <= count,
                count <= self.bytes.len(),
                count <= data.len(),
                data.len() == target.bytes.len(),
                forall|j: int| 0 <= j < i ==> data[j] == self.bytes[j],
                forall|j: int| i <= j < data.len() ==> data[j] == target.bytes[j],
            decreases count - i,
        {
            data[i] = self.bytes[i];
            i = i + 1;
        }
        let mut moved = MemoryBlock { addr, align, bytes: data };
        assert(moved@.bytes =~= self@.moved_into(target).bytes);
        core::mem::swap(self, &mut moved);
        moved
    }
}

} // verus!
