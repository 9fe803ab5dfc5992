//! The decisions of the pool allocator: how many bytes to ask the pool for,
//! which address to hand out for the block the pool returned, and which pool
//! block to give back when an allocation is freed.
//!
//! The pool itself is driven by the caller: it makes the request that
//! [`WdkAllocator::pool_request`] describes, passes the address it got to
//! [`WdkAllocator::complete_allocation`], and carries out the outcome.
use vstd::prelude::*;

verus! {

use crate::align::next_aligned_above;
use crate::layout::AllocLayout;
use crate::pool::{
    PAGE_SIZE,
    POOL_FLAG_NON_PAGED,
    is_rust_tag,
    rust_tag_bytes,
    u32_from_native,
    min_pool_alignment,
    pool_alignment,
    rust_tag,
    word_bytes,
    word_size,
};

/// Whether a request of `size` bytes aligned to `align` needs more alignment
/// than the pool gives to a block of `size` bytes.
pub open spec fn needs_manual_alignment(size: int, align: int) -> bool {
    align > pool_alignment(size)
}

/// The number of bytes asked of the pool for a request: the size itself, or,
/// where the block must be realigned, the size plus the alignment, which
/// leaves room to move the block up to the next aligned address.
pub open spec fn request_size(size: int, align: int) -> int {
    if needs_manual_alignment(size, align) {
        size + align
    } else {
        size
    }
}

/// What the allocator asks of the pool.
#[derive(Clone, Copy, Debug, PartialEq, Eq)]
pub struct PoolRequest {
    /// The pool flags: always the non-paged pool.
    pub pool_flags: u64,
    /// The number of bytes to allocate.
    pub number_of_bytes: usize,
    /// The tag that marks the allocation.
    pub tag: u32,
}

/// What to do with the address the pool returned.
#[derive(Clone, Copy, Debug, PartialEq, Eq)]
pub enum AllocOutcome {
    /// The pool returned null: the allocation fails and nothing is to be freed.
    Null,
    /// The pool's block is handed out as it is.
    Pool { address: usize },
    /// The block at `address`, inside the pool block at `pool`, is handed out
    /// once `pool` has been written to the pointer-sized word at `slot`, just
    /// below `address`.
    Realigned { address: usize, slot: usize, pool: usize },
    /// No aligned address fits in the address space: the pool block at `pool`
    /// is to be freed and the allocation fails.
    ReleaseAndFail { pool: usize },
}

/// Which pool block to free when a block is deallocated.
#[derive(Clone, Copy, Debug, PartialEq, Eq)]
pub enum FreeTarget {
    /// The block at `address` is itself the pool block.
    Block { address: usize },
    /// The address of the pool block is the one stored in the word at `slot`.
    StoredIn { slot: usize },
}

/// The outcome for a request of `size` bytes aligned to `align` when the pool
/// returned the address `pool`.
pub open spec fn completion(size: usize, align: usize, pool: usize) -> AllocOutcome {
    if pool == 0 {
        AllocOutcome::Null
    } else if !needs_manual_alignment(size as int, align as int) {
        AllocOutcome::Pool { address: pool }
    } else if pool + align > usize::MAX {
        AllocOutcome::ReleaseAndFail { pool }
    } else {
        let address = next_aligned_above(pool as int, align as int);
        AllocOutcome::Realigned {
            address: address as usize,
            slot: (address - word_size()) as usize,
            pool,
        }
    }
}

/// The pool block to free for the block at `address` handed out for a
/// request of `size` bytes aligned to `align`.
pub open spec fn free_target_spec(address: usize, size: usize, align: usize) -> FreeTarget {
    if needs_manual_alignment(size as int, align as int) {
        FreeTarget::StoredIn { slot: (address - word_size()) as usize }
    } else {
        FreeTarget::Block { address }
    }
}

/// Whether `layout` asks for more alignment than the pool gives to a block of
/// its size.
pub fn requires_manual_alignment(layout: AllocLayout) -> (r: bool)
    ensures
        r == needs_manual_alignment(layout.size_spec() as int, layout.align_spec() as int),
{
    let pool_alignment = if layout.size() >= PAGE_SIZE {
        PAGE_SIZE
    } else {
        min_pool_alignment()
    };
    layout.align() > pool_alignment
}

/// Global allocator that draws its memory from the kernel's non-paged pool.
///
/// Only safe to use for allocations at `IRQL` <= `DISPATCH_LEVEL`.
#[derive(Clone, Copy, Debug)]
pub struct WdkAllocator;

impl WdkAllocator {
    /// The request to make of the pool for `layout`: `request_size` bytes of
    /// the non-paged pool, tagged `rust`.
    pub fn pool_request(&self, layout: AllocLayout) -> (r: Option<PoolRequest>)
        ensures
            r matches Some(req) && req.number_of_bytes == request_size(
                layout.size_spec() as int,
                layout.align_spec() as int,
            ) && req.pool_flags == POOL_FLAG_NON_PAGED && is_rust_tag(req.tag),
            r matches Some(req) && req.pool_flags == 0x40 && req.tag == u32_from_native(
                rust_tag_bytes(),
            ),
    {
        let size = layout.size();
        let align = layout.align();
        let number_of_bytes = if requires_manual_alignment(layout) {
            match size.checked_add(align) {
                Some(n) => n,
                None => return None,
            }
        } else {
            size
        };
        Some(PoolRequest { pool_flags: POOL_FLAG_NON_PAGED, number_of_bytes, tag: rust_tag() })
    }

    /// What to do with the address `pool_address` that the pool returned for
    /// the request of `layout` (0 where it returned null).
    pub fn complete_allocation(&self, layout: AllocLayout, pool_address: usize) -> (r:
        AllocOutcome)
        ensures
            r == completion(layout.size_spec(), layout.align_spec(), pool_address),
    {
        if pool_address == 0 {
            return AllocOutcome::Null;
        }
        if !requires_manual_alignment(layout) {
            return AllocOutcome::Pool { address: pool_address };
        }
        let align = layout.align();
        let alignment_mask = !(align - 1);
        match pool_address.checked_add(align) {
            None => AllocOutcome::ReleaseAndFail { pool: pool_address },
            Some(bumped) => {
                let address = bumped & alignment_mask;
                proof {
                    crate::align::lemma_next_aligned_above(pool_address, align);
                    crate::align::lemma_pow2_positive(align);
                    crate::align::lemma_next_aligned_above_bounds(pool_address as int, align as int);
                    crate::pool::lemma_word_size();
                }
                let slot = address - word_bytes();
                AllocOutcome::Realigned { address, slot, pool: pool_address }
            },
        }
    }

    /// Which pool block to free for the block at `address`, handed out for
    /// `layout`.
    pub fn free_target(&self, address: usize, layout: AllocLayout) -> (r: FreeTarget)
        requires
            needs_manual_alignment(layout.size_spec() as int, layout.align_spec() as int)
                ==> address >= word_size(),
        ensures
            r == free_target_spec(address, layout.size_spec(), layout.align_spec()),
    {
        if requires_manual_alignment(layout) {
            FreeTarget::StoredIn { slot: address - word_bytes() }
        } else {
            FreeTarget::Block { address }
        }
    }
}

} // verus!
