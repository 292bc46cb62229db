//! Size and alignment of a requested block.

use vstd::prelude::*;

verus! {

/// Whether `n` is a power of two.
pub open spec fn is_power_of_two(n: int) -> bool
    decreases n,
{
    if n <= 0 {
        false
    } else if n == 1 {
        true
    } else {
        n % 2 == 0 && is_power_of_two(n / 2)
    }
}

/// Whether `size` and `align` describe a block that can exist: the alignment is
/// a power of two, and the size, rounded up to the alignment, fits in `usize`.
pub open spec fn valid_size_align(size: int, align: int) -> bool {
    &&& is_power_of_two(align)
    &&& 0 <= size
    &&& size + (align - 1) <= usize::MAX
}

/// Decides whether `n` is a power of two.
pub fn check_power_of_two(n: usize) -> (r: bool)
    ensures
        r == is_power_of_two(n as int),
{
    if n == 0 {
        return false;
    }
    let mut rest: usize = n;
    while rest % 2 == 0
        invariant
            0 < rest <= n,
            is_power_of_two(rest as int) == is_power_of_two(n as int),
        decreases rest,
    {
        rest = rest / 2;
    }
    rest == 1
}

/// The size and alignment asked of a new block.
#[derive(Clone, Copy, Debug)]
pub struct Layout {
    size: usize,
    align: usize,
}

impl Layout {
    #[verifier::type_invariant]
    spec fn well_formed(self) -> bool {
        valid_size_align(self.size as int, self.align as int)
    }

    /// The size in bytes.
    pub closed spec fn spec_size(&self) -> usize {
        self.size
    }

    /// The alignment in bytes.
    pub closed spec fn spec_align(&self) -> usize {
        self.align
    }

    /// The layout with the given size and alignment.
    pub closed spec fn spec_from_size_align(size: usize, align: usize) -> Layout {
        Layout { size, align }
    }

    /// The layout with the given size and alignment, if they are valid.
    pub fn from_size_align(size: usize, align: usize) -> (r: Option<Layout>)
        ensures
            r == (if valid_size_align(size as int, align as int) {
                Some(Layout::spec_from_size_align(size, align))
            } else {
                None
            }),
            r matches Some(l) ==> l.size() == size && l.align() == align,
    {
        if check_power_of_two(align) && size <= usize::MAX - (align - 1) {
            Some(Layout { size, align })
        } else {
            None
        }
    }

    /// The size in bytes.
    #[verifier::when_used_as_spec(spec_size)]
    pub fn size(&self) -> (r: usize)
        ensures
            r == self.size(),
    {
        self.size
    }

    /// The alignment in bytes.
    #[verifier::when_used_as_spec(spec_align)]
    pub fn align(&self) -> (r: usize)
        ensures
            r == self.align(),
            is_power_of_two(r as int),
    {
        proof {
            use_type_invariant(self);
        }
        self.align
    }
}

} // verus!
