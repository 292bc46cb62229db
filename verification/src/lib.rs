//! Building blocks for composing memory allocators.
//!
//! Each structure implements one allocation policy and can be layered with the
//! others: [`NullAlloc`] refuses everything, [`FallbackAlloc`] tries a primary
//! allocator before a secondary one, [`SegregateAlloc`] routes by size, and
//! [`Proxy`] reports every operation to a statistics collector.

pub mod allocator;
pub mod callback;
pub mod fallback_alloc;
pub mod layout;
pub mod memory;
pub mod null_alloc;
pub mod proxy;
pub mod relocate;
pub mod round_trip;
pub mod segregate_alloc;
pub mod stats;

pub use allocator::{Allocator, Owns};
pub use callback::CallbackRef;
pub use fallback_alloc::FallbackAlloc;
pub use layout::Layout;
pub use memory::{AllocErr, AllocInit, MemoryBlock, MemoryBlockView, ReallocPlacement};
pub use null_alloc::NullAlloc;
pub use proxy::Proxy;
pub use segregate_alloc::SegregateAlloc;
pub use stats::{
    AllocInitFilter, AtomicCounter, Counter, FilteredAtomicCounter, FilteredCounter, FilteredStat,
    ReallocPlacementFilter, ResultFilter, Stat,
};
