//! What the library relies on about the kernel's non-paged pool: the
//! alignment it gives to each allocation, the flags and the tag of a request.
use vstd::prelude::*;

verus! {

/// Size in bytes of a page of kernel memory.
pub const PAGE_SIZE: usize = 4096;

/// Pool flag that asks for memory from the non-paged pool.
pub const POOL_FLAG_NON_PAGED: u64 = 0x40;

/// Size in bytes of a machine word, which is also the size of a pointer.
pub open spec fn word_size() -> int {
    vstd::layout::size_of::<usize>() as int
}

/// The alignment the pool gives to every allocation smaller than a page: two
/// machine words.
pub open spec fn min_pool_alignment_spec() -> int {
    2 * word_size()
}

/// The alignment the pool guarantees for an allocation of `size` bytes: a
/// page for allocations of at least a page, two machine words otherwise.
pub open spec fn pool_alignment(size: int) -> int {
    if size >= PAGE_SIZE {
        PAGE_SIZE as int
    } else {
        min_pool_alignment_spec()
    }
}

/// A machine word is four or eight bytes.
pub proof fn lemma_word_size()
    ensures
        word_size() == 4 || word_size() == 8,
        min_pool_alignment_spec() == 8 || min_pool_alignment_spec() == 16,
{
    broadcast use vstd::layout::layout_of_primitives;

}

/// The smallest alignment the pool gives to any allocation: two machine words.
pub fn min_pool_alignment() -> (r: usize)
    ensures
        r == min_pool_alignment_spec(),
        r == 8 || r == 16,
{
    proof {
        lemma_word_size();
    }
    core::mem::size_of::<usize>() * 2
}

/// Size in bytes of a machine word, which is also the size of a pointer.
pub fn word_bytes() -> (r: usize)
    ensures
        r == word_size(),
        r == 4 || r == 8,
{
    proof {
        lemma_word_size();
    }
    core::mem::size_of::<usize>()
}

/// The 32-bit value of four bytes read in little-endian order.
pub open spec fn u32_from_le(b: Seq<u8>) -> int {
    b[0] + 256 * b[1] + 65536 * b[2] + 16777216 * b[3]
}

/// The 32-bit value of four bytes read in big-endian order.
pub open spec fn u32_from_be(b: Seq<u8>) -> int {
    b[3] + 256 * b[2] + 65536 * b[1] + 16777216 * b[0]
}

/// The 32-bit value of four bytes read in the byte order of the machine the
/// code runs on (vstd's `endianness()`).
pub open spec fn u32_from_native(b: Seq<u8>) -> int {
    match vstd::endian::endianness() {
        vstd::endian::Endian::Little => u32_from_le(b),
        vstd::endian::Endian::Big => u32_from_be(b),
    }
}

/// The bytes of the pool tag: `r`, `u`, `s`, `t`.
pub open spec fn rust_tag_bytes() -> Seq<u8> {
    seq![0x72u8, 0x75u8, 0x73u8, 0x74u8]
}

/// Reads four bytes as a `u32` in the machine's byte order, through
/// `u32::from_ne_bytes`.
///
/// Trusted: std documents `from_ne_bytes` as reading the bytes in native
/// byte order, that is the little-endian reading of `bytes` on a
/// little-endian machine and the big-endian one on a big-endian machine;
/// the contract says so over vstd's `endianness()`, which stands for the
/// byte order of the machine the code runs on.
#[verifier::external_body]
fn u32_from_ne_bytes(bytes: [u8; 4]) -> (r: u32)
    ensures
        r == u32_from_native(bytes@),
        r == u32_from_le(bytes@) || r == u32_from_be(bytes@),
{
    u32::from_ne_bytes(bytes)
}

/// Whether `tag` is the pool tag `rust`, read in either byte order.
pub open spec fn is_rust_tag(tag: u32) -> bool {
    tag == 0x7473_7572 || tag == 0x7275_7374
}

/// The tag that marks the allocator's pool allocations: the bytes of `rust`
/// in native byte order, so that debuggers, which show tags in reverse, print
/// `rust`.
pub fn rust_tag() -> (r: u32)
    ensures
        r == u32_from_native(rust_tag_bytes()),
        is_rust_tag(r),
{
    // 'r', 'u', 's', 't'
    let bytes: [u8; 4] = [0x72, 0x75, 0x73, 0x74];
    assert(bytes@ == rust_tag_bytes());
    u32_from_ne_bytes(bytes)
}

/// The tag reads `rust` in memory: on a little-endian machine it is
/// 0x7473_7572, on a big-endian one 0x7275_7374.
pub proof fn lemma_rust_tag_value()
    ensures
        vstd::endian::endianness() is Little ==> u32_from_native(rust_tag_bytes()) == 0x7473_7572,
        vstd::endian::endianness() is Big ==> u32_from_native(rust_tag_bytes()) == 0x7275_7374,
{
}

} // verus!
