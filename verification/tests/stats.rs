use alloc_compose::{
    AllocErr, AllocInit, AllocInitFilter, AtomicCounter, CallbackRef, Counter, FilteredAtomicCounter,
    FilteredCounter, FilteredStat, Layout, MemoryBlock, ReallocPlacement, ReallocPlacementFilter,
    ResultFilter, Stat,
};

const STATS: [Stat; 5] = [Stat::Allocs, Stat::Deallocs, Stat::Grows, Stat::Shrinks, Stat::Owns];

const FILTERED_STATS: [FilteredStat; 19] = [
    FilteredStat::AllocsUninitializedOk,
    FilteredStat::AllocsUninitializedErr,
    FilteredStat::AllocsZeroedOk,
    FilteredStat::AllocsZeroedErr,
    FilteredStat::Deallocs,
    FilteredStat::GrowsMayMoveUninitializedOk,
    FilteredStat::GrowsMayMoveUninitializedErr,
    FilteredStat::GrowsInPlaceUninitializedOk,
    FilteredStat::GrowsInPlaceUninitializedErr,
    FilteredStat::GrowsMayMoveZeroedOk,
    FilteredStat::GrowsMayMoveZeroedErr,
    FilteredStat::GrowsInPlaceZeroedOk,
    FilteredStat::GrowsInPlaceZeroedErr,
    FilteredStat::ShrinksMayMoveOk,
    FilteredStat::ShrinksMayMoveErr,
    FilteredStat::ShrinksInPlaceOk,
    FilteredStat::ShrinksInPlaceErr,
    FilteredStat::OwnsTrue,
    FilteredStat::OwnsFalse,
];

const INITS: [AllocInit; 2] = [AllocInit::Uninitialized, AllocInit::Zeroed];
const PLACEMENTS: [ReallocPlacement; 2] = [ReallocPlacement::MayMove, ReallocPlacement::InPlace];
const SPECIFIC_INITS: [AllocInitFilter; 2] = [AllocInitFilter::Uninitialized, AllocInitFilter::Zeroed];
const SPECIFIC_PLACEMENTS: [ReallocPlacementFilter; 2] =
    [ReallocPlacementFilter::MayMove, ReallocPlacementFilter::InPlace];
const ALL_INITS: [AllocInitFilter; 3] =
    [AllocInitFilter::Any, AllocInitFilter::Uninitialized, AllocInitFilter::Zeroed];
const ALL_PLACEMENTS: [ReallocPlacementFilter; 3] =
    [ReallocPlacementFilter::Any, ReallocPlacementFilter::MayMove, ReallocPlacementFilter::InPlace];
const ALL_RESULTS: [ResultFilter; 3] = [ResultFilter::Any, ResultFilter::Success, ResultFilter::Failure];

fn layout() -> Layout {
    Layout::from_size_align(8, 8).unwrap()
}

fn block() -> MemoryBlock {
    MemoryBlock::new(64, 8, vec![0; 8]).unwrap()
}

fn outcome(block: &MemoryBlock, success: bool) -> Result<&MemoryBlock, AllocErr> {
    if success { Ok(block) } else { Err(AllocErr) }
}

/// Tells `c` of one call of each kind and each combination of arguments,
/// the `n`-th combination `n` times.
fn tell_all<C: CallbackRef>(c: &mut C) -> u64 {
    let b = block();
    let mut n = 0;
    for init in INITS {
        for success in [true, false] {
            n += 1;
            for _ in 0..n {
                c.allocate(layout(), init, outcome(&b, success));
            }
        }
    }
    n += 1;
    for _ in 0..n {
        c.dealloc(64, layout());
    }
    for placement in PLACEMENTS {
        for init in INITS {
            for success in [true, false] {
                n += 1;
                for _ in 0..n {
                    c.grow(64, layout(), 16, placement, init, outcome(&b, success));
                }
            }
        }
    }
    for placement in PLACEMENTS {
        for success in [true, false] {
            n += 1;
            for _ in 0..n {
                c.shrink(64, layout(), 4, placement, outcome(&b, success));
            }
        }
    }
    for success in [true, false] {
        n += 1;
        for _ in 0..n {
            c.owns(success);
        }
    }
    n
}

#[test]
fn stat_indices() {
    let indices: Vec<usize> = STATS.iter().map(|s| s.index()).collect();
    assert_eq!(indices, vec![0, 1, 2, 3, 4]);
}

#[test]
fn filtered_stat_indices() {
    let indices: Vec<usize> = FILTERED_STATS.iter().map(|s| s.index()).collect();
    assert_eq!(indices, (0..19).collect::<Vec<usize>>());
}

#[test]
fn filtered_stat_of_the_arguments() {
    assert_eq!(FilteredStat::of_alloc(AllocInit::Uninitialized, true), FilteredStat::AllocsUninitializedOk);
    assert_eq!(FilteredStat::of_alloc(AllocInit::Uninitialized, false), FilteredStat::AllocsUninitializedErr);
    assert_eq!(FilteredStat::of_alloc(AllocInit::Zeroed, true), FilteredStat::AllocsZeroedOk);
    assert_eq!(FilteredStat::of_alloc(AllocInit::Zeroed, false), FilteredStat::AllocsZeroedErr);
    assert_eq!(
        FilteredStat::of_grow(ReallocPlacement::MayMove, AllocInit::Uninitialized, true),
        FilteredStat::GrowsMayMoveUninitializedOk
    );
    assert_eq!(
        FilteredStat::of_grow(ReallocPlacement::MayMove, AllocInit::Uninitialized, false),
        FilteredStat::GrowsMayMoveUninitializedErr
    );
    assert_eq!(
        FilteredStat::of_grow(ReallocPlacement::MayMove, AllocInit::Zeroed, true),
        FilteredStat::GrowsMayMoveZeroedOk
    );
    assert_eq!(
        FilteredStat::of_grow(ReallocPlacement::MayMove, AllocInit::Zeroed, false),
        FilteredStat::GrowsMayMoveZeroedErr
    );
    assert_eq!(
        FilteredStat::of_grow(ReallocPlacement::InPlace, AllocInit::Uninitialized, true),
        FilteredStat::GrowsInPlaceUninitializedOk
    );
    assert_eq!(
        FilteredStat::of_grow(ReallocPlacement::InPlace, AllocInit::Uninitialized, false),
        FilteredStat::GrowsInPlaceUninitializedErr
    );
    assert_eq!(
        FilteredStat::of_grow(ReallocPlacement::InPlace, AllocInit::Zeroed, true),
        FilteredStat::GrowsInPlaceZeroedOk
    );
    assert_eq!(
        FilteredStat::of_grow(ReallocPlacement::InPlace, AllocInit::Zeroed, false),
        FilteredStat::GrowsInPlaceZeroedErr
    );
    assert_eq!(FilteredStat::of_shrink(ReallocPlacement::MayMove, true), FilteredStat::ShrinksMayMoveOk);
    assert_eq!(FilteredStat::of_shrink(ReallocPlacement::MayMove, false), FilteredStat::ShrinksMayMoveErr);
    assert_eq!(FilteredStat::of_shrink(ReallocPlacement::InPlace, true), FilteredStat::ShrinksInPlaceOk);
    assert_eq!(FilteredStat::of_shrink(ReallocPlacement::InPlace, false), FilteredStat::ShrinksInPlaceErr);
    assert_eq!(FilteredStat::of_owns(true), FilteredStat::OwnsTrue);
    assert_eq!(FilteredStat::of_owns(false), FilteredStat::OwnsFalse);
}

#[test]
fn filters_from_the_tags() {
    assert_eq!(AllocInitFilter::from(AllocInit::Uninitialized), AllocInitFilter::Uninitialized);
    assert_eq!(AllocInitFilter::from(AllocInit::Zeroed), AllocInitFilter::Zeroed);
    assert_eq!(AllocInitFilter::from(Some(AllocInit::Uninitialized)), AllocInitFilter::Uninitialized);
    assert_eq!(AllocInitFilter::from(Some(AllocInit::Zeroed)), AllocInitFilter::Zeroed);
    assert_eq!(AllocInitFilter::from(None), AllocInitFilter::Any);
    assert_eq!(ReallocPlacementFilter::from(ReallocPlacement::MayMove), ReallocPlacementFilter::MayMove);
    assert_eq!(ReallocPlacementFilter::from(ReallocPlacement::InPlace), ReallocPlacementFilter::InPlace);
    assert_eq!(ReallocPlacementFilter::from(Some(ReallocPlacement::MayMove)), ReallocPlacementFilter::MayMove);
    assert_eq!(ReallocPlacementFilter::from(Some(ReallocPlacement::InPlace)), ReallocPlacementFilter::InPlace);
    assert_eq!(ReallocPlacementFilter::from(None), ReallocPlacementFilter::Any);
    let through_into: AllocInitFilter = AllocInit::Zeroed.into();
    assert_eq!(through_into, AllocInitFilter::Zeroed);
}

#[test]
fn counter_starts_at_zero() {
    let c = Counter::new();
    let d = Counter::default();
    for s in STATS {
        assert_eq!(c.get(s), 0);
        assert_eq!(d.get(s), 0);
    }
    assert_eq!(
        (c.num_allocs(), c.num_deallocs(), c.num_grows(), c.num_shrinks(), c.num_owns()),
        (0, 0, 0, 0, 0)
    );
}

#[test]
fn counter_counts_each_stat_on_its_own() {
    let mut c = Counter::new();
    c.increment_stat(Stat::Allocs, 1);
    c.increment_stat(Stat::Deallocs, 2);
    c.increment_stat(Stat::Grows, 3);
    c.increment_stat(Stat::Shrinks, 4);
    c.increment_stat(Stat::Owns, 5);
    c.increment_stat(Stat::Grows, 30);
    assert_eq!(c.get(Stat::Allocs), 1);
    assert_eq!(c.get(Stat::Deallocs), 2);
    assert_eq!(c.get(Stat::Grows), 33);
    assert_eq!(c.get(Stat::Shrinks), 4);
    assert_eq!(c.get(Stat::Owns), 5);
    assert_eq!(
        (c.num_allocs(), c.num_deallocs(), c.num_grows(), c.num_shrinks(), c.num_owns()),
        (1, 2, 33, 4, 5)
    );
}

#[test]
fn counter_stops_at_the_largest_count() {
    let mut c = Counter::new();
    c.increment_stat(Stat::Owns, u64::MAX - 1);
    assert_eq!(c.get(Stat::Owns), u64::MAX - 1);
    c.increment_stat(Stat::Owns, 1);
    assert_eq!(c.get(Stat::Owns), u64::MAX);
    c.increment_stat(Stat::Owns, 1);
    assert_eq!(c.get(Stat::Owns), u64::MAX);
    c.increment_stat(Stat::Owns, u64::MAX);
    assert_eq!(c.get(Stat::Owns), u64::MAX);
    assert_eq!(c.get(Stat::Allocs), 0);
}

#[test]
fn counter_counts_what_it_is_told() {
    let mut c = Counter::new();
    assert_eq!(tell_all(&mut c), 19);
    assert_eq!(c.num_allocs(), 1 + 2 + 3 + 4);
    assert_eq!(c.num_deallocs(), 5);
    assert_eq!(c.num_grows(), 6 + 7 + 8 + 9 + 10 + 11 + 12 + 13);
    assert_eq!(c.num_shrinks(), 14 + 15 + 16 + 17);
    assert_eq!(c.num_owns(), 18 + 19);
}

#[test]
fn counters_compare_by_their_counts() {
    let mut a = Counter::new();
    let mut b = Counter::new();
    assert!(a == b);
    a.increment_stat(Stat::Owns, 1);
    assert!(a != b);
    b.increment_stat(Stat::Owns, 1);
    assert!(a == b);
    b.increment_stat(Stat::Allocs, 1);
    assert!(a != b);
}

#[test]
fn atomic_counter_counts_each_stat_on_its_own() {
    let c = AtomicCounter::default();
    for s in STATS {
        assert_eq!(c.get(s), 0);
    }
    c.increment_stat(Stat::Allocs, 1);
    c.increment_stat(Stat::Deallocs, 2);
    c.increment_stat(Stat::Grows, 3);
    c.increment_stat(Stat::Shrinks, 4);
    c.increment_stat(Stat::Owns, 5);
    c.increment_stat(Stat::Owns, 50);
    assert_eq!(
        (c.num_allocs(), c.num_deallocs(), c.num_grows(), c.num_shrinks(), c.num_owns()),
        (1, 2, 3, 4, 55)
    );
    assert_eq!(c.get(Stat::Owns), 55);
    let seen = c.snapshot();
    assert_eq!(
        (seen.num_allocs(), seen.num_deallocs(), seen.num_grows(), seen.num_shrinks(), seen.num_owns()),
        (1, 2, 3, 4, 55)
    );
}

#[test]
fn atomic_counter_counts_what_it_is_told() {
    let mut c = AtomicCounter::new();
    tell_all(&mut c);
    assert_eq!(
        (c.num_allocs(), c.num_deallocs(), c.num_grows(), c.num_shrinks(), c.num_owns()),
        (10, 5, 76, 62, 37)
    );
    let shared = AtomicCounter::new();
    let mut handle = &shared;
    tell_all(&mut handle);
    let mut plain = Counter::new();
    tell_all(&mut plain);
    assert!(shared == c);
    assert!(shared == plain);
    assert!(plain == shared);
    shared.increment_stat(Stat::Grows, 1);
    assert!(shared != c);
    assert!(shared != plain);
    assert!(plain != shared);
}

#[test]
fn filtered_counter_starts_at_zero() {
    let c = FilteredCounter::new();
    let d = FilteredCounter::default();
    for s in FILTERED_STATS {
        assert_eq!(c.get(s), 0);
        assert_eq!(d.get(s), 0);
    }
    assert_eq!(
        (c.num_allocs(), c.num_deallocs(), c.num_grows(), c.num_shrinks(), c.num_owns()),
        (0, 0, 0, 0, 0)
    );
}

#[test]
fn filtered_counter_counts_each_call_under_its_arguments() {
    let mut c = FilteredCounter::new();
    assert_eq!(tell_all(&mut c), 19);
    for (i, s) in FILTERED_STATS.iter().enumerate() {
        let expected = match i {
            // the order in which `tell_all` walks the combinations of `grow`
            5 => 6,
            6 => 7,
            9 => 8,
            10 => 9,
            7 => 10,
            8 => 11,
            11 => 12,
            12 => 13,
            _ => i as u64 + 1,
        };
        assert_eq!(c.get(*s), expected, "{:?}", s);
    }
}

#[test]
fn filtered_counter_answers_exact_queries() {
    let mut c = FilteredCounter::new();
    tell_all(&mut c);
    assert_eq!(c.num_allocs_filter(AllocInitFilter::Uninitialized, ResultFilter::Success), 1);
    assert_eq!(c.num_allocs_filter(AllocInitFilter::Uninitialized, ResultFilter::Failure), 2);
    assert_eq!(c.num_allocs_filter(AllocInitFilter::Zeroed, ResultFilter::Success), 3);
    assert_eq!(c.num_allocs_filter(AllocInitFilter::Zeroed, ResultFilter::Failure), 4);
    assert_eq!(c.num_allocs_filter(AllocInitFilter::Uninitialized, ResultFilter::Any), 3);
    assert_eq!(c.num_allocs_filter(AllocInitFilter::Zeroed, ResultFilter::Any), 7);
    assert_eq!(c.num_allocs_filter(AllocInitFilter::Any, ResultFilter::Success), 4);
    assert_eq!(c.num_allocs_filter(AllocInitFilter::Any, ResultFilter::Failure), 6);
    assert_eq!(c.num_allocs_filter(AllocInitFilter::Any, ResultFilter::Any), 10);
    assert_eq!(c.num_allocs(), 10);
    assert_eq!(c.num_deallocs(), 5);

    let g = |p, i, r| c.num_grows_filter(p, i, r);
    assert_eq!(g(ReallocPlacementFilter::MayMove, AllocInitFilter::Uninitialized, ResultFilter::Success), 6);
    assert_eq!(g(ReallocPlacementFilter::MayMove, AllocInitFilter::Uninitialized, ResultFilter::Failure), 7);
    assert_eq!(g(ReallocPlacementFilter::MayMove, AllocInitFilter::Zeroed, ResultFilter::Success), 8);
    assert_eq!(g(ReallocPlacementFilter::MayMove, AllocInitFilter::Zeroed, ResultFilter::Failure), 9);
    assert_eq!(g(ReallocPlacementFilter::InPlace, AllocInitFilter::Uninitialized, ResultFilter::Success), 10);
    assert_eq!(g(ReallocPlacementFilter::InPlace, AllocInitFilter::Uninitialized, ResultFilter::Failure), 11);
    assert_eq!(g(ReallocPlacementFilter::InPlace, AllocInitFilter::Zeroed, ResultFilter::Success), 12);
    assert_eq!(g(ReallocPlacementFilter::InPlace, AllocInitFilter::Zeroed, ResultFilter::Failure), 13);
    assert_eq!(g(ReallocPlacementFilter::MayMove, AllocInitFilter::Any, ResultFilter::Any), 30);
    assert_eq!(g(ReallocPlacementFilter::InPlace, AllocInitFilter::Any, ResultFilter::Any), 46);
    assert_eq!(g(ReallocPlacementFilter::Any, AllocInitFilter::Uninitialized, ResultFilter::Any), 34);
    assert_eq!(g(ReallocPlacementFilter::Any, AllocInitFilter::Zeroed, ResultFilter::Any), 42);
    assert_eq!(g(ReallocPlacementFilter::Any, AllocInitFilter::Any, ResultFilter::Success), 36);
    assert_eq!(g(ReallocPlacementFilter::Any, AllocInitFilter::Any, ResultFilter::Failure), 40);
    assert_eq!(g(ReallocPlacementFilter::Any, AllocInitFilter::Zeroed, ResultFilter::Failure), 22);
    assert_eq!(g(ReallocPlacementFilter::InPlace, AllocInitFilter::Any, ResultFilter::Success), 22);
    assert_eq!(g(ReallocPlacementFilter::MayMove, AllocInitFilter::Zeroed, ResultFilter::Any), 17);
    assert_eq!(g(ReallocPlacementFilter::Any, AllocInitFilter::Any, ResultFilter::Any), 76);
    assert_eq!(c.num_grows(), 76);

    assert_eq!(c.num_shrinks_filter(ReallocPlacementFilter::MayMove, ResultFilter::Success), 14);
    assert_eq!(c.num_shrinks_filter(ReallocPlacementFilter::MayMove, ResultFilter::Failure), 15);
    assert_eq!(c.num_shrinks_filter(ReallocPlacementFilter::InPlace, ResultFilter::Success), 16);
    assert_eq!(c.num_shrinks_filter(ReallocPlacementFilter::InPlace, ResultFilter::Failure), 17);
    assert_eq!(c.num_shrinks_filter(ReallocPlacementFilter::MayMove, ResultFilter::Any), 29);
    assert_eq!(c.num_shrinks_filter(ReallocPlacementFilter::InPlace, ResultFilter::Any), 33);
    assert_eq!(c.num_shrinks_filter(ReallocPlacementFilter::Any, ResultFilter::Success), 30);
    assert_eq!(c.num_shrinks_filter(ReallocPlacementFilter::Any, ResultFilter::Failure), 32);
    assert_eq!(c.num_shrinks_filter(ReallocPlacementFilter::Any, ResultFilter::Any), 62);
    assert_eq!(c.num_shrinks(), 62);

    assert_eq!(c.num_owns_filter(true), 18);
    assert_eq!(c.num_owns_filter(false), 19);
    assert_eq!(c.num_owns(), 37);
}

fn assert_adds_up(
    allocs: &dyn Fn(AllocInitFilter, ResultFilter) -> u64,
    grows: &dyn Fn(ReallocPlacementFilter, AllocInitFilter, ResultFilter) -> u64,
    shrinks: &dyn Fn(ReallocPlacementFilter, ResultFilter) -> u64,
) {
    for r in ALL_RESULTS {
        assert_eq!(
            allocs(AllocInitFilter::Any, r),
            SPECIFIC_INITS.iter().map(|i| allocs(*i, r)).sum::<u64>()
        );
        assert_eq!(
            shrinks(ReallocPlacementFilter::Any, r),
            SPECIFIC_PLACEMENTS.iter().map(|p| shrinks(*p, r)).sum::<u64>()
        );
        for i in ALL_INITS {
            assert_eq!(
                grows(ReallocPlacementFilter::Any, i, r),
                SPECIFIC_PLACEMENTS.iter().map(|p| grows(*p, i, r)).sum::<u64>()
            );
        }
        for p in ALL_PLACEMENTS {
            assert_eq!(
                grows(p, AllocInitFilter::Any, r),
                SPECIFIC_INITS.iter().map(|i| grows(p, *i, r)).sum::<u64>()
            );
        }
    }
    for i in ALL_INITS {
        assert_eq!(
            allocs(i, ResultFilter::Any),
            allocs(i, ResultFilter::Success) + allocs(i, ResultFilter::Failure)
        );
        for p in ALL_PLACEMENTS {
            assert_eq!(
                grows(p, i, ResultFilter::Any),
                grows(p, i, ResultFilter::Success) + grows(p, i, ResultFilter::Failure)
            );
        }
    }
    for p in ALL_PLACEMENTS {
        assert_eq!(
            shrinks(p, ResultFilter::Any),
            shrinks(p, ResultFilter::Success) + shrinks(p, ResultFilter::Failure)
        );
    }
}

#[test]
fn filtered_counter_queries_add_up() {
    let mut c = FilteredCounter::new();
    assert_adds_up(
        &|i, r| c.num_allocs_filter(i, r),
        &|p, i, r| c.num_grows_filter(p, i, r),
        &|p, r| c.num_shrinks_filter(p, r),
    );
    tell_all(&mut c);
    c.increment_stat(FilteredStat::GrowsInPlaceZeroedErr, 1000);
    c.increment_stat(FilteredStat::AllocsZeroedOk, 70);
    assert_adds_up(
        &|i, r| c.num_allocs_filter(i, r),
        &|p, i, r| c.num_grows_filter(p, i, r),
        &|p, r| c.num_shrinks_filter(p, r),
    );
    assert_eq!(
        c.num_allocs(),
        c.num_allocs_filter(AllocInitFilter::Uninitialized, ResultFilter::Any)
            + c.num_allocs_filter(AllocInitFilter::Zeroed, ResultFilter::Any)
    );
    assert_eq!(c.num_allocs(), 80);
    assert_eq!(c.num_owns(), c.num_owns_filter(true) + c.num_owns_filter(false));
}

#[test]
fn filtered_counter_stops_at_the_largest_count() {
    let mut c = FilteredCounter::new();
    c.increment_stat(FilteredStat::AllocsZeroedOk, u64::MAX);
    c.increment_stat(FilteredStat::AllocsZeroedOk, 1);
    assert_eq!(c.get(FilteredStat::AllocsZeroedOk), u64::MAX);
    c.increment_stat(FilteredStat::AllocsUninitializedErr, 5);
    assert_eq!(c.num_allocs_filter(AllocInitFilter::Zeroed, ResultFilter::Success), u64::MAX);
    assert_eq!(c.num_allocs_filter(AllocInitFilter::Uninitialized, ResultFilter::Any), 5);
    assert_eq!(c.num_allocs_filter(AllocInitFilter::Any, ResultFilter::Success), u64::MAX);
    assert_eq!(c.num_allocs_filter(AllocInitFilter::Any, ResultFilter::Failure), 5);
    assert_eq!(c.num_allocs(), u64::MAX);
    c.increment_stat(FilteredStat::OwnsTrue, u64::MAX - 1);
    c.increment_stat(FilteredStat::OwnsFalse, 1);
    assert_eq!(c.num_owns(), u64::MAX);
    c.increment_stat(FilteredStat::OwnsFalse, 1);
    assert_eq!(c.num_owns(), u64::MAX);
}

#[test]
fn filtered_counters_compare_by_their_counts() {
    let mut a = FilteredCounter::new();
    let mut b = FilteredCounter::new();
    assert!(a == b);
    a.increment_stat(FilteredStat::OwnsFalse, 1);
    assert!(a != b);
    b.increment_stat(FilteredStat::OwnsFalse, 1);
    assert!(a == b);
    b.increment_stat(FilteredStat::AllocsUninitializedOk, 1);
    assert!(a != b);
}

#[test]
fn filtered_atomic_counter_answers_as_the_plain_one() {
    let mut plain = FilteredCounter::new();
    tell_all(&mut plain);
    let mut own = FilteredAtomicCounter::default();
    tell_all(&mut own);
    let shared = FilteredAtomicCounter::new();
    let mut handle = &shared;
    tell_all(&mut handle);
    for s in FILTERED_STATS {
        assert_eq!(shared.get(s), plain.get(s));
        assert_eq!(own.get(s), plain.get(s));
    }
    for r in ALL_RESULTS {
        for i in ALL_INITS {
            assert_eq!(shared.num_allocs_filter(i, r), plain.num_allocs_filter(i, r));
            for p in ALL_PLACEMENTS {
                assert_eq!(shared.num_grows_filter(p, i, r), plain.num_grows_filter(p, i, r));
            }
        }
        for p in ALL_PLACEMENTS {
            assert_eq!(shared.num_shrinks_filter(p, r), plain.num_shrinks_filter(p, r));
        }
    }
    assert_eq!(
        (shared.num_allocs(), shared.num_deallocs(), shared.num_grows(), shared.num_shrinks(), shared.num_owns()),
        (10, 5, 76, 62, 37)
    );
    assert_eq!((shared.num_owns_filter(true), shared.num_owns_filter(false)), (18, 19));
    assert_adds_up(
        &|i, r| shared.num_allocs_filter(i, r),
        &|p, i, r| shared.num_grows_filter(p, i, r),
        &|p, r| shared.num_shrinks_filter(p, r),
    );
    assert!(shared == own);
    assert!(shared == plain);
    assert!(plain == shared);
    assert!(shared.snapshot() == plain);
    shared.increment_stat(FilteredStat::ShrinksInPlaceErr, 3);
    assert_eq!(shared.get(FilteredStat::ShrinksInPlaceErr), 20);
    assert!(shared != own);
    assert!(shared != plain);
    assert!(plain != shared);
}
