//! A pluggable dynamic-memory allocator: a strategy interface, a lock-free
//! style bump-down arena, a size-classed free-list strategy over a fallback
//! bump allocator, and a coordinator that lazily binds a strategy to one
//! OS-reserved memory region.

pub mod align;
pub mod allocator;
pub mod bump;
pub mod dynamic;
pub mod memory;
pub mod simple;
