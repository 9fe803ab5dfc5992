//! Alignment and bookkeeping logic of a global allocator that draws its memory
//! from the Windows kernel's non-paged pool.
//!
//! - [`layout`]: the size and alignment of a request, with their invariants.
//! - [`pool`]: what the allocator relies on about the pool.
//! - [`align`]: arithmetic of power-of-two alignments.
//! - [`allocator`]: the allocator's decisions for each request and each free.
//! - [`guarantees`]: what the allocator guarantees of the blocks it hands out.
pub mod align;
pub mod allocator;
pub mod guarantees;
pub mod layout;
pub mod pool;
