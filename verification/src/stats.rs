//! Structures that count allocator operations.

use crate::callback::CallbackRef;
use crate::layout::Layout;
use crate::memory::{AllocErr, AllocInit, MemoryBlock, MemoryBlockView, ReallocPlacement};
use std::sync::atomic::AtomicU64;
use std::sync::atomic::Ordering;
use vstd::prelude::*;

verus! {

/// The operations that a counter tells apart.
#[derive(Clone, Copy, Debug, PartialEq, Eq, Structural)]
pub enum Stat {
    Allocs,
    Deallocs,
    Grows,
    Shrinks,
    Owns,
}

/// The number of operations that a counter tells apart.
pub const STAT_COUNT: usize = 5;

impl Stat {
    /// The place of the operation among the counts.
    pub open spec fn spec_index(&self) -> usize {
        match self {
            Stat::Allocs => 0,
            Stat::Deallocs => 1,
            Stat::Grows => 2,
            Stat::Shrinks => 3,
            Stat::Owns => 4,
        }
    }

    /// The place of the operation among the counts.
    #[verifier::when_used_as_spec(spec_index)]
    pub fn index(&self) -> (r: usize)
        ensures
            r == self.index(),
            r < STAT_COUNT,
    {
        match self {
            Stat::Allocs => 0,
            Stat::Deallocs => 1,
            Stat::Grows => 2,
            Stat::Shrinks => 3,
            Stat::Owns => 4,
        }
    }
}

/// The count that holds `count` after `additional` more: their sum, or the
/// largest count there is where the sum is beyond it.
pub open spec fn raised(count: u64, additional: u64) -> u64 {
    if count + additional > u64::MAX {
        u64::MAX
    } else {
        (count + additional) as u64
    }
}

/// The counts `counts` after `additional` more at place `index`.
pub open spec fn counted(counts: Seq<u64>, index: int, additional: u64) -> Seq<u64> {
    counts.update(index, raised(counts[index], additional))
}

/// A counter of allocator operations for a single owner.
///
/// A count starts at zero and never goes down. It stops at `u64::MAX`.
#[derive(Debug)]
pub struct Counter {
    stats: [u64; 5],
}

impl View for Counter {
    type V = Seq<u64>;

    /// The counts, one for each `Stat`, at the place that `Stat::index` gives.
    closed spec fn view(&self) -> Seq<u64> {
        self.stats@
    }
}

impl Counter {
    /// The count of `stat`.
    pub open spec fn count(&self, stat: Stat) -> u64 {
        self@[stat.index() as int]
    }

    /// A counter with every count at zero.
    pub fn new() -> (r: Counter)
        ensures
            r@ == Seq::new(STAT_COUNT as nat, |i: int| 0u64),
    {
        let r = Counter { stats: [0, 0, 0, 0, 0] };
        assert(r@ =~= Seq::new(STAT_COUNT as nat, |i: int| 0u64));
        r
    }

    /// Raises the count of `stat` by `additional`.
    pub fn increment_stat(&mut self, stat: Stat, additional: u64)
        ensures
            final(self)@ == counted(old(self)@, stat.index() as int, additional),
    {
        let i = stat.index();
        self.stats[i] = self.stats[i].saturating_add(additional);
    }

    /// Returns the count of `stat`.
    pub fn get(&self, stat: Stat) -> (r: u64)
        ensures
            r == self.count(stat),
    {
        self.stats[stat.index()]
    }
}

impl Counter {
    /// Returns the number of `allocate` calls.
    pub fn num_allocs(&self) -> (r: u64)
        ensures
            r == self.count(Stat::Allocs),
    {
        self.get(Stat::Allocs)
    }

    /// Returns the number of `dealloc` calls.
    pub fn num_deallocs(&self) -> (r: u64)
        ensures
            r == self.count(Stat::Deallocs),
    {
        self.get(Stat::Deallocs)
    }

    /// Returns the number of `grow` calls.
    pub fn num_grows(&self) -> (r: u64)
        ensures
            r == self.count(Stat::Grows),
    {
        self.get(Stat::Grows)
    }

    /// Returns the number of `shrink` calls.
    pub fn num_shrinks(&self) -> (r: u64)
        ensures
            r == self.count(Stat::Shrinks),
    {
        self.get(Stat::Shrinks)
    }

    /// Returns the number of `owns` calls.
    pub fn num_owns(&self) -> (r: u64)
        ensures
            r == self.count(Stat::Owns),
    {
        self.get(Stat::Owns)
    }
}

impl Default for Counter {
    /// A counter with every count at zero.
    fn default() -> (r: Counter)
        ensures
            r@ == Seq::new(STAT_COUNT as nat, |i: int| 0u64),
    {
        Counter::new()
    }
}

impl PartialEq for Counter {
    /// Returns whether the two counters hold the same counts.
    fn eq(&self, other: &Counter) -> (r: bool) {
        let mut i: usize = 0;
        while i < STAT_COUNT
            invariant
                i <= STAT_COUNT,
                forall|j: int| 0 <= j < i ==> self@[j] == other@[j],
            decreases STAT_COUNT - i,
        {
            if self.stats[i] != other.stats[i] {
                return false;
            }
            i = i + 1;
        }
        assert(self@ =~= other@);
        true
    }
}

impl vstd::std_specs::cmp::PartialEqSpecImpl for Counter {
    open spec fn obeys_eq_spec() -> bool {
        true
    }

    open spec fn eq_spec(&self, other: &Counter) -> bool {
        self@ == other@
    }
}

impl Eq for Counter {

}

impl CallbackRef for Counter {
    /// One more `allocate` is counted.
    open spec fn allocate_noted(
        pre: Self,
        layout: Layout,
        init: AllocInit,
        outcome: Option<MemoryBlockView>,
        post: Self,
    ) -> bool {
        post@ == counted(pre@, Stat::Allocs.index() as int, 1)
    }

    /// One more `dealloc` is counted.
    open spec fn dealloc_noted(pre: Self, addr: usize, layout: Layout, post: Self) -> bool {
        post@ == counted(pre@, Stat::Deallocs.index() as int, 1)
    }

    /// One more `grow` is counted.
    open spec fn grow_noted(
        pre: Self,
        addr: usize,
        layout: Layout,
        new_size: usize,
        placement: ReallocPlacement,
        init: AllocInit,
        outcome: Option<MemoryBlockView>,
        post: Self,
    ) -> bool {
        post@ == counted(pre@, Stat::Grows.index() as int, 1)
    }

    /// One more `shrink` is counted.
    open spec fn shrink_noted(
        pre: Self,
        addr: usize,
        layout: Layout,
        new_size: usize,
        placement: ReallocPlacement,
        outcome: Option<MemoryBlockView>,
        post: Self,
    ) -> bool {
        post@ == counted(pre@, Stat::Shrinks.index() as int, 1)
    }

    /// One more `owns` is counted.
    open spec fn owns_noted(pre: Self, success: bool, post: Self) -> bool {
        post@ == counted(pre@, Stat::Owns.index() as int, 1)
    }

    fn allocate(&mut self, layout: Layout, init: AllocInit, result: Result<&MemoryBlock, AllocErr>) {
        self.increment_stat(Stat::Allocs, 1)
    }

    fn dealloc(&mut self, addr: usize, layout: Layout) {
        self.increment_stat(Stat::Deallocs, 1)
    }

    fn grow(
        &mut self,
        addr: usize,
        layout: Layout,
        new_size: usize,
        placement: ReallocPlacement,
        init: AllocInit,
        result: Result<&MemoryBlock, AllocErr>,
    ) {
        self.increment_stat(Stat::Grows, 1)
    }

    fn shrink(
        &mut self,
        addr: usize,
        layout: Layout,
        new_size: usize,
        placement: ReallocPlacement,
        result: Result<&MemoryBlock, AllocErr>,
    ) {
        self.increment_stat(Stat::Shrinks, 1)
    }

    fn owns(&mut self, success: bool) {
        self.increment_stat(Stat::Owns, 1)
    }
}

/// A counter of allocator operations that threads can share: every method
/// takes the counter by shared reference.
///
/// What one thread reads depends on what the others have counted meanwhile, so
/// no contract speaks of a count.
#[derive(Debug)]
pub struct AtomicCounter {
    stats: [AtomicU64; 5],
}

impl AtomicCounter {
    /// A counter with every count at zero.
    pub fn new() -> (r: AtomicCounter) {
        AtomicCounter {
            stats: [
                AtomicU64::new(0),
                AtomicU64::new(0),
                AtomicU64::new(0),
                AtomicU64::new(0),
                AtomicU64::new(0),
            ],
        }
    }

    /// Raises the count of `stat` by `additional`, in one atomic step.
    pub fn increment_stat(&self, stat: Stat, additional: u64) {
        let _ = self.stats[stat.index()].fetch_add(additional, Ordering::Relaxed);
    }

    /// Returns the count of `stat` as it is at some moment during the call.
    pub fn get(&self, stat: Stat) -> (r: u64) {
        self.stats[stat.index()].load(Ordering::Relaxed)
    }

    /// Reads every count once and returns them as a counter for a single owner.
    pub fn snapshot(&self) -> (r: Counter) {
        Counter {
            stats: [
                self.get(Stat::Allocs),
                self.get(Stat::Deallocs),
                self.get(Stat::Grows),
                self.get(Stat::Shrinks),
                self.get(Stat::Owns),
            ],
        }
    }

    /// Returns the number of `allocate` calls.
    pub fn num_allocs(&self) -> (r: u64) {
        self.get(Stat::Allocs)
    }

    /// Returns the number of `dealloc` calls.
    pub fn num_deallocs(&self) -> (r: u64) {
        self.get(Stat::Deallocs)
    }

    /// Returns the number of `grow` calls.
    pub fn num_grows(&self) -> (r: u64) {
        self.get(Stat::Grows)
    }

    /// Returns the number of `shrink` calls.
    pub fn num_shrinks(&self) -> (r: u64) {
        self.get(Stat::Shrinks)
    }

    /// Returns the number of `owns` calls.
    pub fn num_owns(&self) -> (r: u64) {
        self.get(Stat::Owns)
    }
}

impl Default for AtomicCounter {
    /// A counter with every count at zero.
    fn default() -> (r: AtomicCounter) {
        AtomicCounter::new()
    }
}

impl CallbackRef for AtomicCounter {
    /// Nothing is said of the counts: other threads may count meanwhile.
    open spec fn allocate_noted(
        pre: Self,
        layout: Layout,
        init: AllocInit,
        outcome: Option<MemoryBlockView>,
        post: Self,
    ) -> bool {
        true
    }

    /// Nothing is said of the counts: other threads may count meanwhile.
    open spec fn dealloc_noted(pre: Self, addr: usize, layout: Layout, post: Self) -> bool {
        true
    }

    /// Nothing is said of the counts: other threads may count meanwhile.
    open spec fn grow_noted(
        pre: Self,
        addr: usize,
        layout: Layout,
        new_size: usize,
        placement: ReallocPlacement,
        init: AllocInit,
        outcome: Option<MemoryBlockView>,
        post: Self,
    ) -> bool {
        true
    }

    /// Nothing is said of the counts: other threads may count meanwhile.
    open spec fn shrink_noted(
        pre: Self,
        addr: usize,
        layout: Layout,
        new_size: usize,
        placement: ReallocPlacement,
        outcome: Option<MemoryBlockView>,
        post: Self,
    ) -> bool {
        true
    }

    /// Nothing is said of the counts: other threads may count meanwhile.
    open spec fn owns_noted(pre: Self, success: bool, post: Self) -> bool {
        true
    }

    fn allocate(&mut self, layout: Layout, init: AllocInit, result: Result<&MemoryBlock, AllocErr>) {
        self.increment_stat(Stat::Allocs, 1)
    }

    fn dealloc(&mut self, addr: usize, layout: Layout) {
        self.increment_stat(Stat::Deallocs, 1)
    }

    fn grow(
        &mut self,
        addr: usize,
        layout: Layout,
        new_size: usize,
        placement: ReallocPlacement,
        init: AllocInit,
        result: Result<&MemoryBlock, AllocErr>,
    ) {
        self.increment_stat(Stat::Grows, 1)
    }

    fn shrink(
        &mut self,
        addr: usize,
        layout: Layout,
        new_size: usize,
        placement: ReallocPlacement,
        result: Result<&MemoryBlock, AllocErr>,
    ) {
        self.increment_stat(Stat::Shrinks, 1)
    }

    fn owns(&mut self, success: bool) {
        self.increment_stat(Stat::Owns, 1)
    }
}

impl<'a> CallbackRef for &'a AtomicCounter {
    /// Nothing is said of the counts: other threads may count meanwhile.
    open spec fn allocate_noted(
        pre: Self,
        layout: Layout,
        init: AllocInit,
        outcome: Option<MemoryBlockView>,
        post: Self,
    ) -> bool {
        true
    }

    /// Nothing is said of the counts: other threads may count meanwhile.
    open spec fn dealloc_noted(pre: Self, addr: usize, layout: Layout, post: Self) -> bool {
        true
    }

    /// Nothing is said of the counts: other threads may count meanwhile.
    open spec fn grow_noted(
        pre: Self,
        addr: usize,
        layout: Layout,
        new_size: usize,
        placement: ReallocPlacement,
        init: AllocInit,
        outcome: Option<MemoryBlockView>,
        post: Self,
    ) -> bool {
        true
    }

    /// Nothing is said of the counts: other threads may count meanwhile.
    open spec fn shrink_noted(
        pre: Self,
        addr: usize,
        layout: Layout,
        new_size: usize,
        placement: ReallocPlacement,
        outcome: Option<MemoryBlockView>,
        post: Self,
    ) -> bool {
        true
    }

    /// Nothing is said of the counts: other threads may count meanwhile.
    open spec fn owns_noted(pre: Self, success: bool, post: Self) -> bool {
        true
    }

    fn allocate(&mut self, layout: Layout, init: AllocInit, result: Result<&MemoryBlock, AllocErr>) {
        self.increment_stat(Stat::Allocs, 1)
    }

    fn dealloc(&mut self, addr: usize, layout: Layout) {
        self.increment_stat(Stat::Deallocs, 1)
    }

    fn grow(
        &mut self,
        addr: usize,
        layout: Layout,
        new_size: usize,
        placement: ReallocPlacement,
        init: AllocInit,
        result: Result<&MemoryBlock, AllocErr>,
    ) {
        self.increment_stat(Stat::Grows, 1)
    }

    fn shrink(
        &mut self,
        addr: usize,
        layout: Layout,
        new_size: usize,
        placement: ReallocPlacement,
        result: Result<&MemoryBlock, AllocErr>,
    ) {
        self.increment_stat(Stat::Shrinks, 1)
    }

    fn owns(&mut self, success: bool) {
        self.increment_stat(Stat::Owns, 1)
    }
}

impl PartialEq<AtomicCounter> for Counter {
    /// Returns whether `other`, read once, holds the counts of this counter.
    fn eq(&self, other: &AtomicCounter) -> (r: bool) {
        let seen = other.snapshot();
        *self == seen
    }
}

impl vstd::std_specs::cmp::PartialEqSpecImpl<AtomicCounter> for Counter {
    open spec fn obeys_eq_spec() -> bool {
        false
    }

    open spec fn eq_spec(&self, other: &AtomicCounter) -> bool {
        true
    }
}

impl PartialEq for AtomicCounter {
    /// Returns whether the two counters, each read once, hold the same counts.
    fn eq(&self, other: &AtomicCounter) -> (r: bool) {
        let mine = self.snapshot();
        let seen = other.snapshot();
        mine == seen
    }
}

impl vstd::std_specs::cmp::PartialEqSpecImpl for AtomicCounter {
    open spec fn obeys_eq_spec() -> bool {
        false
    }

    open spec fn eq_spec(&self, other: &AtomicCounter) -> bool {
        true
    }
}

impl PartialEq<Counter> for AtomicCounter {
    /// Returns whether this counter, read once, holds the counts of `other`.
    fn eq(&self, other: &Counter) -> (r: bool) {
        let mine = self.snapshot();
        mine == *other
    }
}

impl vstd::std_specs::cmp::PartialEqSpecImpl<Counter> for AtomicCounter {
    open spec fn obeys_eq_spec() -> bool {
        false
    }

    open spec fn eq_spec(&self, other: &Counter) -> bool {
        true
    }
}

/// The operations that a filtered counter tells apart, each with the values of
/// the arguments and the outcome that it is counted under.
#[derive(Clone, Copy, Debug, PartialEq, Eq, Structural)]
pub enum FilteredStat {
    AllocsUninitializedOk,
    AllocsUninitializedErr,
    AllocsZeroedOk,
    AllocsZeroedErr,
    Deallocs,
    GrowsMayMoveUninitializedOk,
    GrowsMayMoveUninitializedErr,
    GrowsInPlaceUninitializedOk,
    GrowsInPlaceUninitializedErr,
    GrowsMayMoveZeroedOk,
    GrowsMayMoveZeroedErr,
    GrowsInPlaceZeroedOk,
    GrowsInPlaceZeroedErr,
    ShrinksMayMoveOk,
    ShrinksMayMoveErr,
    ShrinksInPlaceOk,
    ShrinksInPlaceErr,
    OwnsTrue,
    OwnsFalse,
}

/// The number of operations that a filtered counter tells apart.
pub const FILTERED_STAT_COUNT: usize = 19;

impl FilteredStat {
    /// The place of the operation among the counts.
    pub open spec fn spec_index(&self) -> usize {
        match self {
            FilteredStat::AllocsUninitializedOk => 0,
            FilteredStat::AllocsUninitializedErr => 1,
            FilteredStat::AllocsZeroedOk => 2,
            FilteredStat::AllocsZeroedErr => 3,
            FilteredStat::Deallocs => 4,
            FilteredStat::GrowsMayMoveUninitializedOk => 5,
            FilteredStat::GrowsMayMoveUninitializedErr => 6,
            FilteredStat::GrowsInPlaceUninitializedOk => 7,
            FilteredStat::GrowsInPlaceUninitializedErr => 8,
            FilteredStat::GrowsMayMoveZeroedOk => 9,
            FilteredStat::GrowsMayMoveZeroedErr => 10,
            FilteredStat::GrowsInPlaceZeroedOk => 11,
            FilteredStat::GrowsInPlaceZeroedErr => 12,
            FilteredStat::ShrinksMayMoveOk => 13,
            FilteredStat::ShrinksMayMoveErr => 14,
            FilteredStat::ShrinksInPlaceOk => 15,
            FilteredStat::ShrinksInPlaceErr => 16,
            FilteredStat::OwnsTrue => 17,
            FilteredStat::OwnsFalse => 18,
        }
    }

    /// The place of the operation among the counts.
    #[verifier::when_used_as_spec(spec_index)]
    pub fn index(&self) -> (r: usize)
        ensures
            r == self.index(),
            r < FILTERED_STAT_COUNT,
    {
        match self {
            FilteredStat::AllocsUninitializedOk => 0,
            FilteredStat::AllocsUninitializedErr => 1,
            FilteredStat::AllocsZeroedOk => 2,
            FilteredStat::AllocsZeroedErr => 3,
            FilteredStat::Deallocs => 4,
            FilteredStat::GrowsMayMoveUninitializedOk => 5,
            FilteredStat::GrowsMayMoveUninitializedErr => 6,
            FilteredStat::GrowsInPlaceUninitializedOk => 7,
            FilteredStat::GrowsInPlaceUninitializedErr => 8,
            FilteredStat::GrowsMayMoveZeroedOk => 9,
            FilteredStat::GrowsMayMoveZeroedErr => 10,
            FilteredStat::GrowsInPlaceZeroedOk => 11,
            FilteredStat::GrowsInPlaceZeroedErr => 12,
            FilteredStat::ShrinksMayMoveOk => 13,
            FilteredStat::ShrinksMayMoveErr => 14,
            FilteredStat::ShrinksInPlaceOk => 15,
            FilteredStat::ShrinksInPlaceErr => 16,
            FilteredStat::OwnsTrue => 17,
            FilteredStat::OwnsFalse => 18,
        }
    }

    /// What an `allocate` with contents `init` is counted under, by whether it
    /// succeeded.
    pub open spec fn spec_of_alloc(init: AllocInit, success: bool) -> FilteredStat {
        match (init, success) {
            (AllocInit::Uninitialized, true) => FilteredStat::AllocsUninitializedOk,
            (AllocInit::Uninitialized, false) => FilteredStat::AllocsUninitializedErr,
            (AllocInit::Zeroed, true) => FilteredStat::AllocsZeroedOk,
            (AllocInit::Zeroed, false) => FilteredStat::AllocsZeroedErr,
        }
    }

    /// What an `allocate` with contents `init` is counted under, by whether it
    /// succeeded.
    #[verifier::when_used_as_spec(spec_of_alloc)]
    pub fn of_alloc(init: AllocInit, success: bool) -> (r: FilteredStat)
        ensures
            r == FilteredStat::of_alloc(init, success),
    {
        match (init, success) {
            (AllocInit::Uninitialized, true) => FilteredStat::AllocsUninitializedOk,
            (AllocInit::Uninitialized, false) => FilteredStat::AllocsUninitializedErr,
            (AllocInit::Zeroed, true) => FilteredStat::AllocsZeroedOk,
            (AllocInit::Zeroed, false) => FilteredStat::AllocsZeroedErr,
        }
    }

    /// What a `grow` with `placement` and `init` is counted under, by whether it
    /// succeeded.
    pub open spec fn spec_of_grow(
        placement: ReallocPlacement,
        init: AllocInit,
        success: bool,
    ) -> FilteredStat {
        match (placement, init, success) {
            (ReallocPlacement::MayMove, AllocInit::Uninitialized, true) => {
                FilteredStat::GrowsMayMoveUninitializedOk
            },
            (ReallocPlacement::MayMove, AllocInit::Uninitialized, false) => {
                FilteredStat::GrowsMayMoveUninitializedErr
            },
            (ReallocPlacement::MayMove, AllocInit::Zeroed, true) => {
                FilteredStat::GrowsMayMoveZeroedOk
            },
            (ReallocPlacement::MayMove, AllocInit::Zeroed, false) => {
                FilteredStat::GrowsMayMoveZeroedErr
            },
            (ReallocPlacement::InPlace, AllocInit::Uninitialized, true) => {
                FilteredStat::GrowsInPlaceUninitializedOk
            },
            (ReallocPlacement::InPlace, AllocInit::Uninitialized, false) => {
                FilteredStat::GrowsInPlaceUninitializedErr
            },
            (ReallocPlacement::InPlace, AllocInit::Zeroed, true) => {
                FilteredStat::GrowsInPlaceZeroedOk
            },
            (ReallocPlacement::InPlace, AllocInit::Zeroed, false) => {
                FilteredStat::GrowsInPlaceZeroedErr
            },
        }
    }

    /// What a `grow` with `placement` and `init` is counted under, by whether it
    /// succeeded.
    #[verifier::when_used_as_spec(spec_of_grow)]
    pub fn of_grow(placement: ReallocPlacement, init: AllocInit, success: bool) -> (r:
        FilteredStat)
        ensures
            r == FilteredStat::of_grow(placement, init, success),
    {
        match (placement, init, success) {
            (ReallocPlacement::MayMove, AllocInit::Uninitialized, true) => {
                FilteredStat::GrowsMayMoveUninitializedOk
            },
            (ReallocPlacement::MayMove, AllocInit::Uninitialized, false) => {
                FilteredStat::GrowsMayMoveUninitializedErr
            },
            (ReallocPlacement::MayMove, AllocInit::Zeroed, true) => {
                FilteredStat::GrowsMayMoveZeroedOk
            },
            (ReallocPlacement::MayMove, AllocInit::Zeroed, false) => {
                FilteredStat::GrowsMayMoveZeroedErr
            },
            (ReallocPlacement::InPlace, AllocInit::Uninitialized, true) => {
                FilteredStat::GrowsInPlaceUninitializedOk
            },
            (ReallocPlacement::InPlace, AllocInit::Uninitialized, false) => {
                FilteredStat::GrowsInPlaceUninitializedErr
            },
            (ReallocPlacement::InPlace, AllocInit::Zeroed, true) => {
                FilteredStat::GrowsInPlaceZeroedOk
            },
            (ReallocPlacement::InPlace, AllocInit::Zeroed, false) => {
                FilteredStat::GrowsInPlaceZeroedErr
            },
        }
    }

    /// What a `shrink` with `placement` is counted under, by whether it
    /// succeeded.
    pub open spec fn spec_of_shrink(placement: ReallocPlacement, success: bool) -> FilteredStat {
        match (placement, success) {
            (ReallocPlacement::MayMove, true) => FilteredStat::ShrinksMayMoveOk,
            (ReallocPlacement::MayMove, false) => FilteredStat::ShrinksMayMoveErr,
            (ReallocPlacement::InPlace, true) => FilteredStat::ShrinksInPlaceOk,
            (ReallocPlacement::InPlace, false) => FilteredStat::ShrinksInPlaceErr,
        }
    }

    /// What a `shrink` with `placement` is counted under, by whether it
    /// succeeded.
    #[verifier::when_used_as_spec(spec_of_shrink)]
    pub fn of_shrink(placement: ReallocPlacement, success: bool) -> (r: FilteredStat)
        ensures
            r == FilteredStat::of_shrink(placement, success),
    {
        match (placement, success) {
            (ReallocPlacement::MayMove, true) => FilteredStat::ShrinksMayMoveOk,
            (ReallocPlacement::MayMove, false) => FilteredStat::ShrinksMayMoveErr,
            (ReallocPlacement::InPlace, true) => FilteredStat::ShrinksInPlaceOk,
            (ReallocPlacement::InPlace, false) => FilteredStat::ShrinksInPlaceErr,
        }
    }

    /// What an `owns` is counted under, by its answer.
    pub open spec fn spec_of_owns(success: bool) -> FilteredStat {
        if success {
            FilteredStat::OwnsTrue
        } else {
            FilteredStat::OwnsFalse
        }
    }

    /// What an `owns` is counted under, by its answer.
    #[verifier::when_used_as_spec(spec_of_owns)]
    pub fn of_owns(success: bool) -> (r: FilteredStat)
        ensures
            r == FilteredStat::of_owns(success),
    {
        if success {
            FilteredStat::OwnsTrue
        } else {
            FilteredStat::OwnsFalse
        }
    }
}

/// Which contents a query asks about: one of the two, or either.
#[derive(Clone, Copy, Debug, PartialEq, Eq, Structural)]
pub enum AllocInitFilter {
    /// Either.
    Any,
    /// Calls that asked for uninitialized bytes.
    Uninitialized,
    /// Calls that asked for zeroed bytes.
    Zeroed,
}

impl AllocInitFilter {
    /// Whether the filter lets a call with contents `init` through.
    pub open spec fn admits(self, init: AllocInit) -> bool {
        match self {
            AllocInitFilter::Any => true,
            AllocInitFilter::Uninitialized => init is Uninitialized,
            AllocInitFilter::Zeroed => init is Zeroed,
        }
    }
}

impl From<AllocInit> for AllocInitFilter {
    /// The filter that lets `init` through and nothing else.
    fn from(init: AllocInit) -> (r: AllocInitFilter) {
        match init {
            AllocInit::Uninitialized => AllocInitFilter::Uninitialized,
            AllocInit::Zeroed => AllocInitFilter::Zeroed,
        }
    }
}

impl vstd::std_specs::convert::FromSpecImpl<AllocInit> for AllocInitFilter {
    open spec fn obeys_from_spec() -> bool {
        true
    }

    open spec fn from_spec(init: AllocInit) -> AllocInitFilter {
        match init {
            AllocInit::Uninitialized => AllocInitFilter::Uninitialized,
            AllocInit::Zeroed => AllocInitFilter::Zeroed,
        }
    }
}

impl From<Option<AllocInit>> for AllocInitFilter {
    /// The filter that lets the given contents through, or everything where none
    /// is given.
    fn from(init: Option<AllocInit>) -> (r: AllocInitFilter) {
        match init {
            Some(init) => AllocInitFilter::from(init),
            None => AllocInitFilter::Any,
        }
    }
}

impl vstd::std_specs::convert::FromSpecImpl<Option<AllocInit>> for AllocInitFilter {
    open spec fn obeys_from_spec() -> bool {
        true
    }

    open spec fn from_spec(init: Option<AllocInit>) -> AllocInitFilter {
        match init {
            Some(AllocInit::Uninitialized) => AllocInitFilter::Uninitialized,
            Some(AllocInit::Zeroed) => AllocInitFilter::Zeroed,
            None => AllocInitFilter::Any,
        }
    }
}

/// Which placement a query asks about: one of the two, or either.
#[derive(Clone, Copy, Debug, PartialEq, Eq, Structural)]
pub enum ReallocPlacementFilter {
    /// Either.
    Any,
    /// Calls that let the block move.
    MayMove,
    /// Calls that asked for the block to stay in place.
    InPlace,
}

impl ReallocPlacementFilter {
    /// Whether the filter lets a call with `placement` through.
    pub open spec fn admits(self, placement: ReallocPlacement) -> bool {
        match self {
            ReallocPlacementFilter::Any => true,
            ReallocPlacementFilter::MayMove => placement is MayMove,
            ReallocPlacementFilter::InPlace => placement is InPlace,
        }
    }
}

impl From<ReallocPlacement> for ReallocPlacementFilter {
    /// The filter that lets `placement` through and nothing else.
    fn from(placement: ReallocPlacement) -> (r: ReallocPlacementFilter) {
        match placement {
            ReallocPlacement::MayMove => ReallocPlacementFilter::MayMove,
            ReallocPlacement::InPlace => ReallocPlacementFilter::InPlace,
        }
    }
}

impl vstd::std_specs::convert::FromSpecImpl<ReallocPlacement> for ReallocPlacementFilter {
    open spec fn obeys_from_spec() -> bool {
        true
    }

    open spec fn from_spec(placement: ReallocPlacement) -> ReallocPlacementFilter {
        match placement {
            ReallocPlacement::MayMove => ReallocPlacementFilter::MayMove,
            ReallocPlacement::InPlace => ReallocPlacementFilter::InPlace,
        }
    }
}

impl From<Option<ReallocPlacement>> for ReallocPlacementFilter {
    /// The filter that lets the given placement through, or everything where
    /// none is given.
    fn from(placement: Option<ReallocPlacement>) -> (r: ReallocPlacementFilter) {
        match placement {
            Some(placement) => ReallocPlacementFilter::from(placement),
            None => ReallocPlacementFilter::Any,
        }
    }
}

impl vstd::std_specs::convert::FromSpecImpl<Option<ReallocPlacement>> for ReallocPlacementFilter {
    open spec fn obeys_from_spec() -> bool {
        true
    }

    open spec fn from_spec(placement: Option<ReallocPlacement>) -> ReallocPlacementFilter {
        match placement {
            Some(ReallocPlacement::MayMove) => ReallocPlacementFilter::MayMove,
            Some(ReallocPlacement::InPlace) => ReallocPlacementFilter::InPlace,
            None => ReallocPlacementFilter::Any,
        }
    }
}

/// Which outcome a query asks about: success, failure, or either.
#[derive(Clone, Copy, Debug, PartialEq, Eq, Structural)]
pub enum ResultFilter {
    /// Either.
    Any,
    /// Calls that succeeded.
    Success,
    /// Calls that failed.
    Failure,
}

impl ResultFilter {
    /// Whether the filter lets a call through that ended as `success` says.
    pub open spec fn admits(self, success: bool) -> bool {
        match self {
            ResultFilter::Any => true,
            ResultFilter::Success => success,
            ResultFilter::Failure => !success,
        }
    }
}

/// The count at `stat` where `through` holds, and zero where it does not.
pub open spec fn share(counts: Seq<u64>, stat: FilteredStat, through: bool) -> nat {
    if through {
        counts[stat.index() as int] as nat
    } else {
        0
    }
}

/// The number of `allocate` calls with contents `init` that the two filters
/// let through.
pub open spec fn allocs_tally_of(
    counts: Seq<u64>,
    init_filter: AllocInitFilter,
    result_filter: ResultFilter,
    init: AllocInit,
) -> nat {
    share(
        counts,
        FilteredStat::of_alloc(init, true),
        init_filter.admits(init) && result_filter.admits(true),
    ) + share(
        counts,
        FilteredStat::of_alloc(init, false),
        init_filter.admits(init) && result_filter.admits(false),
    )
}

/// The number of `allocate` calls that the two filters let through.
pub open spec fn allocs_tally(
    counts: Seq<u64>,
    init_filter: AllocInitFilter,
    result_filter: ResultFilter,
) -> nat {
    allocs_tally_of(counts, init_filter, result_filter, AllocInit::Uninitialized)
        + allocs_tally_of(counts, init_filter, result_filter, AllocInit::Zeroed)
}

/// The number of `grow` calls with `placement` and `init` that the three
/// filters let through.
pub open spec fn grows_tally_of(
    counts: Seq<u64>,
    placement_filter: ReallocPlacementFilter,
    init_filter: AllocInitFilter,
    result_filter: ResultFilter,
    placement: ReallocPlacement,
    init: AllocInit,
) -> nat {
    share(
        counts,
        FilteredStat::of_grow(placement, init, true),
        placement_filter.admits(placement) && init_filter.admits(init) && result_filter.admits(
            true,
        ),
    ) + share(
        counts,
        FilteredStat::of_grow(placement, init, false),
        placement_filter.admits(placement) && init_filter.admits(init) && result_filter.admits(
            false,
        ),
    )
}

/// The number of `grow` calls that the three filters let through.
pub open spec fn grows_tally(
    counts: Seq<u64>,
    placement_filter: ReallocPlacementFilter,
    init_filter: AllocInitFilter,
    result_filter: ResultFilter,
) -> nat {
    grows_tally_of(
        counts,
        placement_filter,
        init_filter,
        result_filter,
        ReallocPlacement::MayMove,
        AllocInit::Uninitialized,
    ) + grows_tally_of(
        counts,
        placement_filter,
        init_filter,
        result_filter,
        ReallocPlacement::MayMove,
        AllocInit::Zeroed,
    ) + grows_tally_of(
        counts,
        placement_filter,
        init_filter,
        result_filter,
        ReallocPlacement::InPlace,
        AllocInit::Uninitialized,
    ) + grows_tally_of(
        counts,
        placement_filter,
        init_filter,
        result_filter,
        ReallocPlacement::InPlace,
        AllocInit::Zeroed,
    )
}

/// The number of `shrink` calls with `placement` that the two filters let
/// through.
pub open spec fn shrinks_tally_of(
    counts: Seq<u64>,
    placement_filter: ReallocPlacementFilter,
    result_filter: ResultFilter,
    placement: ReallocPlacement,
) -> nat {
    share(
        counts,
        FilteredStat::of_shrink(placement, true),
        placement_filter.admits(placement) && result_filter.admits(true),
    ) + share(
        counts,
        FilteredStat::of_shrink(placement, false),
        placement_filter.admits(placement) && result_filter.admits(false),
    )
}

/// The number of `shrink` calls that the two filters let through.
pub open spec fn shrinks_tally(
    counts: Seq<u64>,
    placement_filter: ReallocPlacementFilter,
    result_filter: ResultFilter,
) -> nat {
    shrinks_tally_of(counts, placement_filter, result_filter, ReallocPlacement::MayMove)
        + shrinks_tally_of(counts, placement_filter, result_filter, ReallocPlacement::InPlace)
}

/// The number of `owns` calls, whatever they answered.
pub open spec fn owns_tally(counts: Seq<u64>) -> nat {
    share(counts, FilteredStat::OwnsTrue, true) + share(counts, FilteredStat::OwnsFalse, true)
}

/// A tally as a query returns it: the tally itself, or `u64::MAX` where the
/// tally is beyond it.
pub open spec fn capped(tally: nat) -> u64 {
    if tally > u64::MAX {
        u64::MAX
    } else {
        tally as u64
    }
}

/// A counter of allocator operations for a single owner that tells the calls
/// apart by their arguments and their outcome.
///
/// A count starts at zero and never goes down. It stops at `u64::MAX`, and so
/// does every sum of counts that a query returns.
#[derive(Debug)]
pub struct FilteredCounter {
    stats: [u64; 19],
}

impl View for FilteredCounter {
    type V = Seq<u64>;

    /// The counts, one for each `FilteredStat`, at the place that
    /// `FilteredStat::index` gives.
    closed spec fn view(&self) -> Seq<u64> {
        self.stats@
    }
}

impl FilteredCounter {
    /// The count of `stat`.
    pub open spec fn count(&self, stat: FilteredStat) -> u64 {
        self@[stat.index() as int]
    }

    /// A counter with every count at zero.
    pub fn new() -> (r: FilteredCounter)
        ensures
            r@ == Seq::new(FILTERED_STAT_COUNT as nat, |i: int| 0u64),
    {
        let r = FilteredCounter { stats: [0; 19] };
        assert(r@ =~= Seq::new(FILTERED_STAT_COUNT as nat, |i: int| 0u64));
        r
    }

    /// Raises the count of `stat` by `additional`.
    pub fn increment_stat(&mut self, stat: FilteredStat, additional: u64)
        ensures
            final(self)@ == counted(old(self)@, stat.index() as int, additional),
    {
        let i = stat.index();
        self.stats[i] = self.stats[i].saturating_add(additional);
    }

    /// Returns the count of `stat`.
    pub fn get(&self, stat: FilteredStat) -> (r: u64)
        ensures
            r == self.count(stat),
    {
        self.stats[stat.index()]
    }

    /// Returns the total number of `allocate` calls.
    pub fn num_allocs(&self) -> (r: u64)
        ensures
            r == capped(allocs_tally(self@, AllocInitFilter::Any, ResultFilter::Any)),
    {
        self.num_allocs_filter(AllocInitFilter::Any, ResultFilter::Any)
    }

    /// Returns the number of `allocate` calls that the filters let through.
    pub fn num_allocs_filter(&self, init: AllocInitFilter, result: ResultFilter) -> (r: u64)
        ensures
            r == capped(allocs_tally(self@, init, result)),
        decreases (if init is Any { 1int } else { 0int }) + (if result is Any { 1int } else { 0int }),
    {
        match (init, result) {
            (AllocInitFilter::Uninitialized, ResultFilter::Success) => {
                self.get(FilteredStat::AllocsUninitializedOk)
            },
            (AllocInitFilter::Uninitialized, ResultFilter::Failure) => {
                self.get(FilteredStat::AllocsUninitializedErr)
            },
            (AllocInitFilter::Zeroed, ResultFilter::Success) => {
                self.get(FilteredStat::AllocsZeroedOk)
            },
            (AllocInitFilter::Zeroed, ResultFilter::Failure) => {
                self.get(FilteredStat::AllocsZeroedErr)
            },
            (AllocInitFilter::Any, _) => {
                self.num_allocs_filter(AllocInitFilter::Uninitialized, result).saturating_add(
                    self.num_allocs_filter(AllocInitFilter::Zeroed, result),
                )
            },
            (i, ResultFilter::Any) => {
                self.num_allocs_filter(i, ResultFilter::Success).saturating_add(
                    self.num_allocs_filter(i, ResultFilter::Failure),
                )
            },
        }
    }

    /// Returns the total number of `dealloc` calls.
    pub fn num_deallocs(&self) -> (r: u64)
        ensures
            r == self.count(FilteredStat::Deallocs),
    {
        self.get(FilteredStat::Deallocs)
    }

    /// Returns the total number of `grow` calls.
    pub fn num_grows(&self) -> (r: u64)
        ensures
            r == capped(
                grows_tally(
                    self@,
                    ReallocPlacementFilter::Any,
                    AllocInitFilter::Any,
                    ResultFilter::Any,
                ),
            ),
    {
        self.num_grows_filter(
            ReallocPlacementFilter::Any,
            AllocInitFilter::Any,
            ResultFilter::Any,
        )
    }

    /// Returns the number of `grow` calls that the filters let through.
    pub fn num_grows_filter(
        &self,
        placement: ReallocPlacementFilter,
        init: AllocInitFilter,
        result: ResultFilter,
    ) -> (r: u64)
        ensures
            r == capped(grows_tally(self@, placement, init, result)),
        decreases (if placement is Any { 1int } else { 0int }) + (if init is Any { 1int } else { 0int })
            + (if result is Any { 1int } else { 0int }),
    {
        match (placement, init, result) {
            (
                ReallocPlacementFilter::MayMove,
                AllocInitFilter::Uninitialized,
                ResultFilter::Success,
            ) => self.get(FilteredStat::GrowsMayMoveUninitializedOk),
            (
                ReallocPlacementFilter::MayMove,
                AllocInitFilter::Uninitialized,
                ResultFilter::Failure,
            ) => self.get(FilteredStat::GrowsMayMoveUninitializedErr),
            (ReallocPlacementFilter::MayMove, AllocInitFilter::Zeroed, ResultFilter::Success) => {
                self.get(FilteredStat::GrowsMayMoveZeroedOk)
            },
            (ReallocPlacementFilter::MayMove, AllocInitFilter::Zeroed, ResultFilter::Failure) => {
                self.get(FilteredStat::GrowsMayMoveZeroedErr)
            },
            (
                ReallocPlacementFilter::InPlace,
                AllocInitFilter::Uninitialized,
                ResultFilter::Success,
            ) => self.get(FilteredStat::GrowsInPlaceUninitializedOk),
            (
                ReallocPlacementFilter::InPlace,
                AllocInitFilter::Uninitialized,
                ResultFilter::Failure,
            ) => self.get(FilteredStat::GrowsInPlaceUninitializedErr),
            (ReallocPlacementFilter::InPlace, AllocInitFilter::Zeroed, ResultFilter::Success) => {
                self.get(FilteredStat::GrowsInPlaceZeroedOk)
            },
            (ReallocPlacementFilter::InPlace, AllocInitFilter::Zeroed, ResultFilter::Failure) => {
                self.get(FilteredStat::GrowsInPlaceZeroedErr)
            },
            (ReallocPlacementFilter::Any, i, _) => {
                self.num_grows_filter(ReallocPlacementFilter::MayMove, i, result).saturating_add(
                    self.num_grows_filter(ReallocPlacementFilter::InPlace, i, result),
                )
            },
            (p, AllocInitFilter::Any, _) => {
                self.num_grows_filter(p, AllocInitFilter::Uninitialized, result).saturating_add(
                    self.num_grows_filter(p, AllocInitFilter::Zeroed, result),
                )
            },
            (p, i, ResultFilter::Any) => {
                self.num_grows_filter(p, i, ResultFilter::Success).saturating_add(
                    self.num_grows_filter(p, i, ResultFilter::Failure),
                )
            },
        }
    }

    /// Returns the total number of `shrink` calls.
    pub fn num_shrinks(&self) -> (r: u64)
        ensures
            r == capped(shrinks_tally(self@, ReallocPlacementFilter::Any, ResultFilter::Any)),
    {
        self.num_shrinks_filter(ReallocPlacementFilter::Any, ResultFilter::Any)
    }

    /// Returns the number of `shrink` calls that the filters let through.
    pub fn num_shrinks_filter(&self, placement: ReallocPlacementFilter, result: ResultFilter) -> (r:
        u64)
        ensures
            r == capped(shrinks_tally(self@, placement, result)),
        decreases (if placement is Any { 1int } else { 0int }) + (if result is Any { 1int } else { 0int }),
    {
        match (placement, result) {
            (ReallocPlacementFilter::MayMove, ResultFilter::Success) => {
                self.get(FilteredStat::ShrinksMayMoveOk)
            },
            (ReallocPlacementFilter::MayMove, ResultFilter::Failure) => {
                self.get(FilteredStat::ShrinksMayMoveErr)
            },
            (ReallocPlacementFilter::InPlace, ResultFilter::Success) => {
                self.get(FilteredStat::ShrinksInPlaceOk)
            },
            (ReallocPlacementFilter::InPlace, ResultFilter::Failure) => {
                self.get(FilteredStat::ShrinksInPlaceErr)
            },
            (ReallocPlacementFilter::Any, _) => {
                self.num_shrinks_filter(ReallocPlacementFilter::MayMove, result).saturating_add(
                    self.num_shrinks_filter(ReallocPlacementFilter::InPlace, result),
                )
            },
            (p, ResultFilter::Any) => {
                self.num_shrinks_filter(p, ResultFilter::Success).saturating_add(
                    self.num_shrinks_filter(p, ResultFilter::Failure),
                )
            },
        }
    }

    /// Returns the total number of `owns` calls.
    pub fn num_owns(&self) -> (r: u64)
        ensures
            r == capped(owns_tally(self@)),
    {
        self.num_owns_filter(true).saturating_add(self.num_owns_filter(false))
    }

    /// Returns the number of `owns` calls that answered `success`.
    pub fn num_owns_filter(&self, success: bool) -> (r: u64)
        ensures
            r == self.count(FilteredStat::of_owns(success)),
    {
        if success {
            self.get(FilteredStat::OwnsTrue)
        } else {
            self.get(FilteredStat::OwnsFalse)
        }
    }
}

impl Default for FilteredCounter {
    /// A counter with every count at zero.
    fn default() -> (r: FilteredCounter)
        ensures
            r@ == Seq::new(FILTERED_STAT_COUNT as nat, |i: int| 0u64),
    {
        FilteredCounter::new()
    }
}

impl PartialEq for FilteredCounter {
    /// Returns whether the two counters hold the same counts.
    fn eq(&self, other: &FilteredCounter) -> (r: bool) {
        let mut i: usize = 0;
        while i < FILTERED_STAT_COUNT
            invariant
                i <= FILTERED_STAT_COUNT,
                forall|j: int| 0 <= j < i ==> self@[j] == other@[j],
            decreases FILTERED_STAT_COUNT - i,
        {
            if self.stats[i] != other.stats[i] {
                return false;
            }
            i = i + 1;
        }
        assert(self@ =~= other@);
        true
    }
}

impl vstd::std_specs::cmp::PartialEqSpecImpl for FilteredCounter {
    open spec fn obeys_eq_spec() -> bool {
        true
    }

    open spec fn eq_spec(&self, other: &FilteredCounter) -> bool {
        self@ == other@
    }
}

impl Eq for FilteredCounter {

}

impl CallbackRef for FilteredCounter {
    /// One more `allocate` is counted, under its contents and its outcome.
    open spec fn allocate_noted(
        pre: Self,
        layout: Layout,
        init: AllocInit,
        outcome: Option<MemoryBlockView>,
        post: Self,
    ) -> bool {
        post@ == counted(pre@, FilteredStat::of_alloc(init, outcome is Some).index() as int, 1)
    }

    /// One more `dealloc` is counted.
    open spec fn dealloc_noted(pre: Self, addr: usize, layout: Layout, post: Self) -> bool {
        post@ == counted(pre@, FilteredStat::Deallocs.index() as int, 1)
    }

    /// One more `grow` is counted, under its placement, its contents and its
    /// outcome.
    open spec fn grow_noted(
        pre: Self,
        addr: usize,
        layout: Layout,
        new_size: usize,
        placement: ReallocPlacement,
        init: AllocInit,
        outcome: Option<MemoryBlockView>,
        post: Self,
    ) -> bool {
        post@ == counted(
            pre@,
            FilteredStat::of_grow(placement, init, outcome is Some).index() as int,
            1,
        )
    }

    /// One more `shrink` is counted, under its placement and its outcome.
    open spec fn shrink_noted(
        pre: Self,
        addr: usize,
        layout: Layout,
        new_size: usize,
        placement: ReallocPlacement,
        outcome: Option<MemoryBlockView>,
        post: Self,
    ) -> bool {
        post@ == counted(
            pre@,
            FilteredStat::of_shrink(placement, outcome is Some).index() as int,
            1,
        )
    }

    /// One more `owns` is counted, under its answer.
    open spec fn owns_noted(pre: Self, success: bool, post: Self) -> bool {
        post@ == counted(pre@, FilteredStat::of_owns(success).index() as int, 1)
    }

    fn allocate(&mut self, layout: Layout, init: AllocInit, result: Result<&MemoryBlock, AllocErr>) {
        self.increment_stat(FilteredStat::of_alloc(init, result.is_ok()), 1)
    }

    fn dealloc(&mut self, addr: usize, layout: Layout) {
        self.increment_stat(FilteredStat::Deallocs, 1)
    }

    fn grow(
        &mut self,
        addr: usize,
        layout: Layout,
        new_size: usize,
        placement: ReallocPlacement,
        init: AllocInit,
        result: Result<&MemoryBlock, AllocErr>,
    ) {
        self.increment_stat(FilteredStat::of_grow(placement, init, result.is_ok()), 1)
    }

    fn shrink(
        &mut self,
        addr: usize,
        layout: Layout,
        new_size: usize,
        placement: ReallocPlacement,
        result: Result<&MemoryBlock, AllocErr>,
    ) {
        self.increment_stat(FilteredStat::of_shrink(placement, result.is_ok()), 1)
    }

    fn owns(&mut self, success: bool) {
        self.increment_stat(FilteredStat::of_owns(success), 1)
    }
}

/// A filtered counter of allocator operations that threads can share: every
/// method takes the counter by shared reference.
///
/// What one thread reads depends on what the others have counted meanwhile, so
/// no contract speaks of a count. A query reads every count once and answers
/// as a `FilteredCounter` with those counts would.
#[derive(Debug)]
pub struct FilteredAtomicCounter {
    stats: [AtomicU64; 19],
}

impl FilteredAtomicCounter {
    /// A counter with every count at zero.
    pub fn new() -> (r: FilteredAtomicCounter) {
        FilteredAtomicCounter {
            stats: [
                AtomicU64::new(0),
                AtomicU64::new(0),
                AtomicU64::new(0),
                AtomicU64::new(0),
                AtomicU64::new(0),
                AtomicU64::new(0),
                AtomicU64::new(0),
                AtomicU64::new(0),
                AtomicU64::new(0),
                AtomicU64::new(0),
                AtomicU64::new(0),
                AtomicU64::new(0),
                AtomicU64::new(0),
                AtomicU64::new(0),
                AtomicU64::new(0),
                AtomicU64::new(0),
                AtomicU64::new(0),
                AtomicU64::new(0),
                AtomicU64::new(0),
            ],
        }
    }

    /// Raises the count of `stat` by `additional`, in one atomic step.
    pub fn increment_stat(&self, stat: FilteredStat, additional: u64) {
        let _ = self.stats[stat.index()].fetch_add(additional, Ordering::Relaxed);
    }

    /// Returns the count of `stat` as it is at some moment during the call.
    pub fn get(&self, stat: FilteredStat) -> (r: u64) {
        self.stats[stat.index()].load(Ordering::Relaxed)
    }

    /// Reads every count once and returns them as a counter for a single owner.
    pub fn snapshot(&self) -> (r: FilteredCounter) {
        let mut seen = FilteredCounter::new();
        let mut i: usize = 0;
        while i < FILTERED_STAT_COUNT
            invariant
                i <= FILTERED_STAT_COUNT,
            decreases FILTERED_STAT_COUNT - i,
        {
            seen.stats[i] = self.stats[i].load(Ordering::Relaxed);
            i = i + 1;
        }
        seen
    }

    /// Returns the total number of `allocate` calls.
    pub fn num_allocs(&self) -> (r: u64) {
        self.snapshot().num_allocs()
    }

    /// Returns the number of `allocate` calls that the filters let through.
    pub fn num_allocs_filter(&self, init: AllocInitFilter, result: ResultFilter) -> (r: u64) {
        self.snapshot().num_allocs_filter(init, result)
    }

    /// Returns the total number of `dealloc` calls.
    pub fn num_deallocs(&self) -> (r: u64) {
        self.get(FilteredStat::Deallocs)
    }

    /// Returns the total number of `grow` calls.
    pub fn num_grows(&self) -> (r: u64) {
        self.snapshot().num_grows()
    }

    /// Returns the number of `grow` calls that the filters let through.
    pub fn num_grows_filter(
        &self,
        placement: ReallocPlacementFilter,
        init: AllocInitFilter,
        result: ResultFilter,
    ) -> (r: u64) {
        self.snapshot().num_grows_filter(placement, init, result)
    }

    /// Returns the total number of `shrink` calls.
    pub fn num_shrinks(&self) -> (r: u64) {
        self.snapshot().num_shrinks()
    }

    /// Returns the number of `shrink` calls that the filters let through.
    pub fn num_shrinks_filter(&self, placement: ReallocPlacementFilter, result: ResultFilter) -> (r:
        u64) {
        self.snapshot().num_shrinks_filter(placement, result)
    }

    /// Returns the total number of `owns` calls.
    pub fn num_owns(&self) -> (r: u64) {
        self.snapshot().num_owns()
    }

    /// Returns the number of `owns` calls that answered `success`.
    pub fn num_owns_filter(&self, success: bool) -> (r: u64) {
        self.get(FilteredStat::of_owns(success))
    }
}

impl Default for FilteredAtomicCounter {
    /// A counter with every count at zero.
    fn default() -> (r: FilteredAtomicCounter) {
        FilteredAtomicCounter::new()
    }
}

impl CallbackRef for FilteredAtomicCounter {
    /// Nothing is said of the counts: other threads may count meanwhile.
    open spec fn allocate_noted(
        pre: Self,
        layout: Layout,
        init: AllocInit,
        outcome: Option<MemoryBlockView>,
        post: Self,
    ) -> bool {
        true
    }

    /// Nothing is said of the counts: other threads may count meanwhile.
    open spec fn dealloc_noted(pre: Self, addr: usize, layout: Layout, post: Self) -> bool {
        true
    }

    /// Nothing is said of the counts: other threads may count meanwhile.
    open spec fn grow_noted(
        pre: Self,
        addr: usize,
        layout: Layout,
        new_size: usize,
        placement: ReallocPlacement,
        init: AllocInit,
        outcome: Option<MemoryBlockView>,
        post: Self,
    ) -> bool {
        true
    }

    /// Nothing is said of the counts: other threads may count meanwhile.
    open spec fn shrink_noted(
        pre: Self,
        addr: usize,
        layout: Layout,
        new_size: usize,
        placement: ReallocPlacement,
        outcome: Option<MemoryBlockView>,
        post: Self,
    ) -> bool {
        true
    }

    /// Nothing is said of the counts: other threads may count meanwhile.
    open spec fn owns_noted(pre: Self, success: bool, post: Self) -> bool {
        true
    }

    fn allocate(&mut self, layout: Layout, init: AllocInit, result: Result<&MemoryBlock, AllocErr>) {
        self.increment_stat(FilteredStat::of_alloc(init, result.is_ok()), 1)
    }

    fn dealloc(&mut self, addr: usize, layout: Layout) {
        self.increment_stat(FilteredStat::Deallocs, 1)
    }

    fn grow(
        &mut self,
        addr: usize,
        layout: Layout,
        new_size: usize,
        placement: ReallocPlacement,
        init: AllocInit,
        result: Result<&MemoryBlock, AllocErr>,
    ) {
        self.increment_stat(FilteredStat::of_grow(placement, init, result.is_ok()), 1)
    }

    fn shrink(
        &mut self,
        addr: usize,
        layout: Layout,
        new_size: usize,
        placement: ReallocPlacement,
        result: Result<&MemoryBlock, AllocErr>,
    ) {
        self.increment_stat(FilteredStat::of_shrink(placement, result.is_ok()), 1)
    }

    fn owns(&mut self, success: bool) {
        self.increment_stat(FilteredStat::of_owns(success), 1)
    }
}

impl<'a> CallbackRef for &'a FilteredAtomicCounter {
    /// Nothing is said of the counts: other threads may count meanwhile.
    open spec fn allocate_noted(
        pre: Self,
        layout: Layout,
        init: AllocInit,
        outcome: Option<MemoryBlockView>,
        post: Self,
    ) -> bool {
        true
    }

    /// Nothing is said of the counts: other threads may count meanwhile.
    open spec fn dealloc_noted(pre: Self, addr: usize, layout: Layout, post: Self) -> bool {
        true
    }

    /// Nothing is said of the counts: other threads may count meanwhile.
    open spec fn grow_noted(
        pre: Self,
        addr: usize,
        layout: Layout,
        new_size: usize,
        placement: ReallocPlacement,
        init: AllocInit,
        outcome: Option<MemoryBlockView>,
        post: Self,
    ) -> bool {
        true
    }

    /// Nothing is said of the counts: other threads may count meanwhile.
    open spec fn shrink_noted(
        pre: Self,
        addr: usize,
        layout: Layout,
        new_size: usize,
        placement: ReallocPlacement,
        outcome: Option<MemoryBlockView>,
        post: Self,
    ) -> bool {
        true
    }

    /// Nothing is said of the counts: other threads may count meanwhile.
    open spec fn owns_noted(pre: Self, success: bool, post: Self) -> bool {
        true
    }

    fn allocate(&mut self, layout: Layout, init: AllocInit, result: Result<&MemoryBlock, AllocErr>) {
        self.increment_stat(FilteredStat::of_alloc(init, result.is_ok()), 1)
    }

    fn dealloc(&mut self, addr: usize, layout: Layout) {
        self.increment_stat(FilteredStat::Deallocs, 1)
    }

    fn grow(
        &mut self,
        addr: usize,
        layout: Layout,
        new_size: usize,
        placement: ReallocPlacement,
        init: AllocInit,
        result: Result<&MemoryBlock, AllocErr>,
    ) {
        self.increment_stat(FilteredStat::of_grow(placement, init, result.is_ok()), 1)
    }

    fn shrink(
        &mut self,
        addr: usize,
        layout: Layout,
        new_size: usize,
        placement: ReallocPlacement,
        result: Result<&MemoryBlock, AllocErr>,
    ) {
        self.increment_stat(FilteredStat::of_shrink(placement, result.is_ok()), 1)
    }

    fn owns(&mut self, success: bool) {
        self.increment_stat(FilteredStat::of_owns(success), 1)
    }
}

impl PartialEq<FilteredAtomicCounter> for FilteredCounter {
    /// Returns whether `other`, read once, holds the counts of this counter.
    fn eq(&self, other: &FilteredAtomicCounter) -> (r: bool) {
        let seen = other.snapshot();
        *self == seen
    }
}

impl vstd::std_specs::cmp::PartialEqSpecImpl<FilteredAtomicCounter> for FilteredCounter {
    open spec fn obeys_eq_spec() -> bool {
        false
    }

    open spec fn eq_spec(&self, other: &FilteredAtomicCounter) -> bool {
        true
    }
}

impl PartialEq for FilteredAtomicCounter {
    /// Returns whether the two counters, each read once, hold the same counts.
    fn eq(&self, other: &FilteredAtomicCounter) -> (r: bool) {
        let mine = self.snapshot();
        let seen = other.snapshot();
        mine == seen
    }
}

impl vstd::std_specs::cmp::PartialEqSpecImpl for FilteredAtomicCounter {
    open spec fn obeys_eq_spec() -> bool {
        false
    }

    open spec fn eq_spec(&self, other: &FilteredAtomicCounter) -> bool {
        true
    }
}

impl PartialEq<FilteredCounter> for FilteredAtomicCounter {
    /// Returns whether this counter, read once, holds the counts of `other`.
    fn eq(&self, other: &FilteredCounter) -> (r: bool) {
        let mine = self.snapshot();
        mine == *other
    }
}

impl vstd::std_specs::cmp::PartialEqSpecImpl<FilteredCounter> for FilteredAtomicCounter {
    open spec fn obeys_eq_spec() -> bool {
        false
    }

    open spec fn eq_spec(&self, other: &FilteredCounter) -> bool {
        true
    }
}

/// The `allocate` calls of either contents are those with uninitialized
/// contents and those with zeroed contents, whatever the filter on the outcome.
pub proof fn lemma_allocs_split_by_init(counts: Seq<u64>, result: ResultFilter)
    ensures
        allocs_tally(counts, AllocInitFilter::Any, result) == allocs_tally(
            counts,
            AllocInitFilter::Uninitialized,
            result,
        ) + allocs_tally(counts, AllocInitFilter::Zeroed, result),
{
}

/// The `allocate` calls of either outcome are those that succeeded and those
/// that failed, whatever the filter on the contents.
pub proof fn lemma_allocs_split_by_result(counts: Seq<u64>, init: AllocInitFilter)
    ensures
        allocs_tally(counts, init, ResultFilter::Any) == allocs_tally(
            counts,
            init,
            ResultFilter::Success,
        ) + allocs_tally(counts, init, ResultFilter::Failure),
{
}

/// The `grow` calls of either placement are those that let the block move and
/// those that asked for it to stay, whatever the other two filters.
pub proof fn lemma_grows_split_by_placement(
    counts: Seq<u64>,
    init: AllocInitFilter,
    result: ResultFilter,
)
    ensures
        grows_tally(counts, ReallocPlacementFilter::Any, init, result) == grows_tally(
            counts,
            ReallocPlacementFilter::MayMove,
            init,
            result,
        ) + grows_tally(counts, ReallocPlacementFilter::InPlace, init, result),
{
}

/// The `grow` calls of either contents are those with uninitialized contents
/// and those with zeroed contents, whatever the other two filters.
pub proof fn lemma_grows_split_by_init(
    counts: Seq<u64>,
    placement: ReallocPlacementFilter,
    result: ResultFilter,
)
    ensures
        grows_tally(counts, placement, AllocInitFilter::Any, result) == grows_tally(
            counts,
            placement,
            AllocInitFilter::Uninitialized,
            result,
        ) + grows_tally(counts, placement, AllocInitFilter::Zeroed, result),
{
}

/// The `grow` calls of either outcome are those that succeeded and those that
/// failed, whatever the other two filters.
pub proof fn lemma_grows_split_by_result(
    counts: Seq<u64>,
    placement: ReallocPlacementFilter,
    init: AllocInitFilter,
)
    ensures
        grows_tally(counts, placement, init, ResultFilter::Any) == grows_tally(
            counts,
            placement,
            init,
            ResultFilter::Success,
        ) + grows_tally(counts, placement, init, ResultFilter::Failure),
{
}

/// The `shrink` calls of either placement are those that let the block move
/// and those that asked for it to stay, whatever the filter on the outcome.
pub proof fn lemma_shrinks_split_by_placement(counts: Seq<u64>, result: ResultFilter)
    ensures
        shrinks_tally(counts, ReallocPlacementFilter::Any, result) == shrinks_tally(
            counts,
            ReallocPlacementFilter::MayMove,
            result,
        ) + shrinks_tally(counts, ReallocPlacementFilter::InPlace, result),
{
}

/// The `shrink` calls of either outcome are those that succeeded and those
/// that failed, whatever the filter on the placement.
pub proof fn lemma_shrinks_split_by_result(counts: Seq<u64>, placement: ReallocPlacementFilter)
    ensures
        shrinks_tally(counts, placement, ResultFilter::Any) == shrinks_tally(
            counts,
            placement,
            ResultFilter::Success,
        ) + shrinks_tally(counts, placement, ResultFilter::Failure),
{
}

/// Where a tally is the sum of two others, the query for the whole returns the
/// sum of what the queries for the parts return, cut off at `u64::MAX`; so as
/// long as the whole is within `u64::MAX`, the query for the whole returns
/// exactly the sum of the two others.
pub proof fn lemma_capped_sum(whole: nat, left: nat, right: nat)
    requires
        whole == left + right,
    ensures
        capped(whole) == raised(capped(left), capped(right)),
        whole <= u64::MAX ==> capped(whole) == capped(left) + capped(right),
{
}

/// What the queries of a filtered counter return adds up: as long as no total
/// is beyond `u64::MAX`, `num_allocs()` is the sum of
/// `num_allocs_filter(Uninitialized, Any)` and `num_allocs_filter(Zeroed, Any)`,
/// and each of the two is the sum of its `Success` and its `Failure` part.
pub proof fn lemma_num_allocs_adds_up(counter: FilteredCounter)
    requires
        allocs_tally(counter@, AllocInitFilter::Any, ResultFilter::Any) <= u64::MAX,
    ensures
        capped(allocs_tally(counter@, AllocInitFilter::Any, ResultFilter::Any)) == capped(
            allocs_tally(counter@, AllocInitFilter::Uninitialized, ResultFilter::Any),
        ) + capped(allocs_tally(counter@, AllocInitFilter::Zeroed, ResultFilter::Any)),
        capped(allocs_tally(counter@, AllocInitFilter::Uninitialized, ResultFilter::Any))
            == capped(allocs_tally(counter@, AllocInitFilter::Uninitialized, ResultFilter::Success))
            + capped(allocs_tally(counter@, AllocInitFilter::Uninitialized, ResultFilter::Failure)),
        capped(allocs_tally(counter@, AllocInitFilter::Zeroed, ResultFilter::Any)) == capped(
            allocs_tally(counter@, AllocInitFilter::Zeroed, ResultFilter::Success),
        ) + capped(allocs_tally(counter@, AllocInitFilter::Zeroed, ResultFilter::Failure)),
{
}

} // verus!
