//! The size and alignment of a memory request, held with the invariants that
//! every allocation request in Rust satisfies.
use vstd::prelude::*;

verus! {

use vstd::arithmetic::power2::is_pow2;

/// The conditions under which a size and an alignment describe a request:
/// the alignment is a power of two, and the size rounded up to a multiple of
/// the alignment does not exceed `isize::MAX`.
pub open spec fn valid_layout(size: int, align: int) -> bool {
    &&& is_pow2(align)
    &&& size + align - 1 <= isize::MAX
}

/// Tests whether `n` is a power of two, through `usize::is_power_of_two`.
///
/// Trusted: std documents `is_power_of_two` as returning `true` exactly when
/// `n == 2^k` for some natural `k`, which is what the contract says.
#[verifier::external_body]
fn is_power_of_two(n: usize) -> (r: bool)
    ensures
        r == is_pow2(n as int),
{
    n.is_power_of_two()
}

/// The size and alignment of a memory request.
#[derive(Clone, Copy, Debug)]
pub struct AllocLayout {
    size: usize,
    align: usize,
}

impl AllocLayout {
    /// The size, in bytes, of the request.
    pub closed spec fn size_spec(self) -> usize {
        self.size
    }

    /// The alignment, in bytes, of the request.
    pub closed spec fn align_spec(self) -> usize {
        self.align
    }

    #[verifier::type_invariant]
    pub closed spec fn is_valid(self) -> bool {
        valid_layout(self.size as int, self.align as int)
    }

    /// Builds the layout of `size` bytes aligned to `align`; `None` when the
    /// alignment is not a power of two or when `size`, rounded up to a
    /// multiple of `align`, would exceed `isize::MAX`.
    pub fn from_size_align(size: usize, align: usize) -> (r: Option<AllocLayout>)
        ensures
            r is Some <==> valid_layout(size as int, align as int),
            r matches Some(l) ==> l.size_spec() == size && l.align_spec() == align,
            is_pow2(align as int) && size + align - 1 <= isize::MAX ==> (r matches Some(l)
                && l.size_spec() == size && l.align_spec() == align),
            r is Some ==> is_pow2(align as int) && size + align - 1 <= isize::MAX,
    {
        if !is_power_of_two(align) {
            return None;
        }
        proof {
            crate::align::lemma_pow2_positive(align);
        }
        match size.checked_add(align - 1) {
            Some(rounded) => {
                if rounded <= isize::MAX as usize {
                    Some(AllocLayout { size, align })
                } else {
                    None
                }
            },
            None => None,
        }
    }

    /// The size, in bytes, of the request.
    pub fn size(&self) -> (r: usize)
        ensures
            r == self.size_spec(),
            valid_layout(r as int, self.align_spec() as int),
    {
        proof {
            use_type_invariant(self);
        }
        self.size
    }

    /// The alignment, in bytes, of the request.
    pub fn align(&self) -> (r: usize)
        ensures
            r == self.align_spec(),
            valid_layout(self.size_spec() as int, r as int),
    {
        proof {
            use_type_invariant(self);
        }
        self.align
    }
}

/// A size and an alignment describe a request exactly when the alignment is
/// a power of two and the size, rounded up to a multiple of the alignment,
/// does not exceed `isize::MAX`.
pub proof fn lemma_valid_layout_exactly(size: int, align: int)
    ensures
        valid_layout(size, align) <==> (is_pow2(align) && size + align - 1 <= isize::MAX),
{
}

} // verus!
