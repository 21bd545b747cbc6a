//! A routing allocation core: several allocator backends registered as a
//! closed set, one selected per call site at run time, behind a single
//! uniform allocate/deallocate interface.
//!
//! Deallocation receives only a pointer and a layout, with no record of
//! which backend produced the block. The core mechanism recovers that
//! information from a hidden header, sized to the block's alignment and
//! written immediately before the user data, which carries the tag of the
//! backend that produced the allocation.

pub mod allocator;
pub mod context;
pub mod layout;
pub mod scope;
pub mod tag;

pub use allocator::Allocation;
pub use allocator::Block;
pub use allocator::MultiAllocator;
pub use allocator::MultiAllocatorBackend;
pub use context::SelectionContext;
pub use scope::with_allocator;
pub use layout::Layout;
pub use tag::Tag;
