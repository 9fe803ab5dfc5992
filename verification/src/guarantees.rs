//! What the allocator guarantees of the blocks it hands out, on the premise
//! that the pool aligns each block as it documents.
use vstd::prelude::*;

verus! {

use vstd::arithmetic::power2::is_pow2;
use crate::align::{
    lemma_mod_transitive,
    lemma_next_aligned_above_bounds,
    lemma_pow2_divides,
    lemma_pow2_positive,
    next_aligned_above,
};
use crate::allocator::{
    AllocOutcome,
    FreeTarget,
    completion,
    free_target_spec,
    needs_manual_alignment,
    request_size,
};
use crate::layout::valid_layout;
use crate::pool::{
    PAGE_SIZE,
    lemma_word_size,
    min_pool_alignment_spec,
    pool_alignment,
    word_size,
};

/// The alignments the pool gives are powers of two, and each divides a page.
pub proof fn lemma_pool_alignments()
    ensures
        is_pow2(PAGE_SIZE as int),
        is_pow2(min_pool_alignment_spec()),
        (PAGE_SIZE as int) % min_pool_alignment_spec() == 0,
        forall|size: int| #[trigger] is_pow2(pool_alignment(size)),
        forall|size: int| #[trigger] pool_alignment(size) % min_pool_alignment_spec() == 0,
        forall|size: int| #[trigger] pool_alignment(size) >= min_pool_alignment_spec(),
{
    lemma_word_size();
    vstd::arithmetic::power2::lemma2_to64();
    vstd::arithmetic::power2::lemma_pow2(3);
    vstd::arithmetic::power2::lemma_pow2(4);
    vstd::arithmetic::power2::lemma_pow2(12);
    vstd::arithmetic::power2::is_pow2_equiv(8);
    vstd::arithmetic::power2::is_pow2_equiv(16);
    vstd::arithmetic::power2::is_pow2_equiv(4096);
    assert(vstd::arithmetic::power::pow(2, 3) == 8);
    assert(vstd::arithmetic::power::pow(2, 4) == 16);
    assert(vstd::arithmetic::power::pow(2, 12) == 4096);
}

/// Two distinct multiples of `m` lie at least `m` apart.
proof fn lemma_multiples_apart(x: int, y: int, m: int)
    requires
        m > 0,
        x % m == 0,
        y % m == 0,
        x < y,
    ensures
        y - x >= m,
{
    vstd::arithmetic::div_mod::lemma_fundamental_div_mod(x, m);
    vstd::arithmetic::div_mod::lemma_fundamental_div_mod(y, m);
    let a = x / m;
    let b = y / m;
    assert(m * a < m * b);
    assert(a < b) by (nonlinear_arith)
        requires
            m * a < m * b,
            m > 0,
    ;
    assert(m * b - m * a == m * (b - a)) by (nonlinear_arith);
    assert(m * (b - a) >= m) by (nonlinear_arith)
        requires
            b - a >= 1,
            m > 0,
    ;
}

/// Every block handed out is aligned as requested and lies inside the pool
/// block it came from: for a request of `size` bytes aligned to `align`, when
/// the pool returns a non-null block at `pool` aligned as the pool documents
/// for a block of the requested size, the address handed out is a multiple
/// of `align`, is at least `pool`, and its `size` bytes end within the pool
/// block's `request_size` bytes.
pub proof fn lemma_block_aligned_within_pool_block(size: usize, align: usize, pool: usize)
    requires
        valid_layout(size as int, align as int),
        pool != 0,
        pool as int % pool_alignment(request_size(size as int, align as int)) == 0,
    ensures
        match completion(size, align, pool) {
            AllocOutcome::Pool { address } => {
                &&& address == pool
                &&& address as int % align as int == 0
                &&& address + size <= pool + request_size(size as int, align as int)
            },
            AllocOutcome::Realigned { address, pool: p, .. } => {
                &&& p == pool
                &&& address as int % align as int == 0
                &&& pool < address
                &&& address + size <= pool + request_size(size as int, align as int)
            },
            AllocOutcome::ReleaseAndFail { pool: p } => p == pool,
            AllocOutcome::Null => false,
        },
{
    lemma_pool_alignments();
    lemma_pow2_positive(align);
    let req = request_size(size as int, align as int);
    if !needs_manual_alignment(size as int, align as int) {
        let p = pool_alignment(req);
        lemma_pow2_divides(align as int, p);
        lemma_mod_transitive(pool as int, align as int, p);
    } else if pool + align <= usize::MAX {
        lemma_next_aligned_above_bounds(pool as int, align as int);
    }
}

/// The word in which a realigned block records its pool block lies inside
/// the pool block and ends where the handed-out block begins: when the pool
/// returns a block at `pool` aligned as it documents, the slot lies in
/// `[pool, address - word_size()]`.
pub proof fn lemma_pointer_slot_within_pool_block(size: usize, align: usize, pool: usize)
    requires
        valid_layout(size as int, align as int),
        pool != 0,
        pool as int % pool_alignment(request_size(size as int, align as int)) == 0,
    ensures
        completion(size, align, pool) matches AllocOutcome::Realigned { address, slot, .. } ==> {
            &&& pool <= slot
            &&& slot + word_size() == address
        },
{
    lemma_pool_alignments();
    lemma_word_size();
    lemma_pow2_positive(align);
    let req = request_size(size as int, align as int);
    let min = min_pool_alignment_spec();
    if needs_manual_alignment(size as int, align as int) && pool + align <= usize::MAX {
        let address = next_aligned_above(pool as int, align as int);
        lemma_next_aligned_above_bounds(pool as int, align as int);
        lemma_mod_transitive(pool as int, min, pool_alignment(req));
        lemma_pow2_divides(min, align as int);
        lemma_mod_transitive(address, min, align as int);
        lemma_multiples_apart(pool as int, address, min);
    }
}

/// Freeing finds the pool block again: for the block that a completed
/// allocation hands out, the free target is the pool block itself when it
/// was handed out as it was, and the slot where the pool address was written
/// when it was realigned.
pub proof fn lemma_free_finds_pool_block(size: usize, align: usize, pool: usize)
    requires
        valid_layout(size as int, align as int),
    ensures
        match completion(size, align, pool) {
            AllocOutcome::Pool { address } => free_target_spec(address, size, align)
                == FreeTarget::Block { address: pool },
            AllocOutcome::Realigned { address, slot, pool: p } => {
                &&& p == pool
                &&& address >= word_size()
                &&& free_target_spec(address, size, align) == FreeTarget::StoredIn { slot }
            },
            _ => true,
        },
{
    lemma_pool_alignments();
    lemma_word_size();
    lemma_pow2_positive(align);
    if pool != 0 && needs_manual_alignment(size as int, align as int) && pool + align
        <= usize::MAX {
        lemma_next_aligned_above_bounds(pool as int, align as int);
    }
}

/// Manual alignment is needed exactly when the pool may hand back a block
/// that is not aligned as requested. The pool documents page alignment for
/// blocks of at least a page (4096 bytes) and two machine words below that:
/// when the requested alignment is at most that, every address the pool may
/// return is aligned as requested; when it is larger, the pool may return
/// the documented alignment itself, which is not.
pub proof fn lemma_manual_alignment_exactly_when_pool_may_misalign(size: int, align: int)
    requires
        is_pow2(align),
    ensures
        needs_manual_alignment(size, align) <==> align > (if size >= 4096 { 4096 } else { 2 * vstd::layout::size_of::<usize>() as int }),
        !needs_manual_alignment(size, align) ==> ({
            let guaranteed = (if size >= 4096 { 4096 } else { 2 * vstd::layout::size_of::<usize>() as int });
            forall|p: int| p % guaranteed == 0 ==> #[trigger] (p % align) == 0
        }),
        needs_manual_alignment(size, align) ==> (if size >= 4096 { 4096 } else { 2 * vstd::layout::size_of::<usize>() as int }) % align != 0,
{
    lemma_pool_alignments();
    lemma_word_size();
    let guaranteed = (if size >= 4096 { 4096 } else { 2 * vstd::layout::size_of::<usize>() as int });
    assert(guaranteed == pool_alignment(size));
    if !needs_manual_alignment(size, align) {
        assert(align > 0) by {
            vstd::arithmetic::power2::is_pow2_equiv(align);
            let k = choose|i: nat| vstd::arithmetic::power::pow(2, i) == align;
            vstd::arithmetic::power::lemma_pow_positive(2, k);
        }
        lemma_pow2_divides(align, guaranteed);
        assert forall|p: int| p % guaranteed == 0 implies #[trigger] (p % align) == 0 by {
            lemma_mod_transitive(p, align, guaranteed);
        }
    } else {
        vstd::arithmetic::div_mod::lemma_small_mod(guaranteed as nat, align as nat);
    }
}

/// The number of bytes asked of the pool is the size itself when the pool's
/// documented alignment suffices, and the size plus the alignment when it
/// does not, leaving room to move the block up to an aligned address.
pub proof fn lemma_request_size_exactly(size: int, align: int)
    ensures
        align > (if size >= 4096 { 4096 } else { 2 * vstd::layout::size_of::<usize>() as int }) ==> request_size(size, align) == size + align,
        align <= (if size >= 4096 { 4096 } else { 2 * vstd::layout::size_of::<usize>() as int }) ==> request_size(size, align) == size,
{
    lemma_word_size();
}

/// When the pool returns null, the allocation fails and nothing is freed.
pub proof fn lemma_null_pool_block_fails(size: usize, align: usize)
    ensures
        completion(size, align, 0) == AllocOutcome::Null,
{
}

/// When the pool's documented alignment suffices, a non-null pool block is
/// handed out as it is.
pub proof fn lemma_pool_block_handed_out_as_is(size: usize, align: usize, pool: usize)
    requires
        pool != 0,
        align <= (if size >= 4096 { 4096 } else { 2 * vstd::layout::size_of::<usize>() as int }),
    ensures
        completion(size, align, pool) == (AllocOutcome::Pool { address: pool }),
{
    lemma_word_size();
}

/// When the pool's documented alignment does not suffice, a non-null pool
/// block is realigned whenever an aligned address fits in the address space,
/// whatever the size and wherever the block lies: the address handed out is
/// the multiple of `align` in `(pool, pool + align]`, and the pool address is
/// recorded in the word just below it. Only when `pool + align` overflows is
/// the block released and the allocation failed.
pub proof fn lemma_realigned_exactly_when_aligned_address_fits(
    size: usize,
    align: usize,
    pool: usize,
)
    requires
        is_pow2(align as int),
        size + align - 1 <= isize::MAX,
        pool != 0,
        align > (if size >= 4096 { 4096 } else { 2 * vstd::layout::size_of::<usize>() as int }),
    ensures
        pool + align <= usize::MAX ==> (completion(size, align, pool) matches AllocOutcome::Realigned {
            address,
            slot,
            pool: p,
        } && p == pool && address as int % align as int == 0 && pool < address <= pool + align
            && slot + vstd::layout::size_of::<usize>() == address),
        pool + align > usize::MAX ==> completion(size, align, pool) == (AllocOutcome::ReleaseAndFail {
            pool,
        }),
{
    lemma_word_size();
    lemma_pow2_positive(align);
    if pool + align <= usize::MAX {
        lemma_next_aligned_above_bounds(pool as int, align as int);
    }
}

} // verus!
