//! Arithmetic of power-of-two alignments.
use vstd::prelude::*;

verus! {

use vstd::arithmetic::power::pow;
use vstd::arithmetic::power2::{is_pow2, pow2};

/// The smallest multiple of `align` that is strictly greater than `address`.
pub open spec fn next_aligned_above(address: int, align: int) -> int {
    (address / align + 1) * align
}

/// The exponent of a power of two that fits in a `usize`.
pub proof fn pow2_exponent(n: usize) -> (k: nat)
    requires
        is_pow2(n as int),
    ensures
        pow2(k) == n,
        k < usize::BITS,
{
    vstd::arithmetic::power2::is_pow2_equiv(n as int);
    let k = choose|i: nat| pow(2, i) == n as int;
    vstd::arithmetic::power2::lemma_pow2(k);
    if k >= usize::BITS {
        vstd::arithmetic::power2::lemma2_to64();
        if k > usize::BITS {
            vstd::arithmetic::power2::lemma_pow2_strictly_increases(usize::BITS as nat, k);
        }
        assert(false);
    }
    k
}

/// A power of two is positive.
pub proof fn lemma_pow2_positive(n: usize)
    requires
        is_pow2(n as int),
    ensures
        n > 0,
{
    let k = pow2_exponent(n);
    vstd::arithmetic::power2::lemma_pow2_pos(k);
}

/// A power of two divides every larger power of two.
pub proof fn lemma_pow2_divides(a: int, b: int)
    requires
        is_pow2(a),
        is_pow2(b),
        a <= b,
    ensures
        b % a == 0,
{
    vstd::arithmetic::power2::is_pow2_equiv(a);
    vstd::arithmetic::power2::is_pow2_equiv(b);
    let i = choose|i: nat| pow(2, i) == a;
    let j = choose|j: nat| pow(2, j) == b;
    vstd::arithmetic::power2::lemma_pow2(i);
    vstd::arithmetic::power2::lemma_pow2(j);
    if j < i {
        vstd::arithmetic::power2::lemma_pow2_strictly_increases(j, i);
    }
    let d = (j - i) as nat;
    vstd::arithmetic::power2::lemma_pow2_adds(i, d);
    assert(i + d == j);
    vstd::arithmetic::power2::lemma_pow2_pos(i);
    vstd::arithmetic::div_mod::lemma_mod_multiples_basic(pow2(d) as int, a);
    assert(pow2(d) * a == b) by (nonlinear_arith)
        requires
            pow2(i + d) == pow2(i) * pow2(d),
            pow2(i) == a,
            pow2(j) == b,
            i + d == j,
    ;
}

/// Divisibility passes down: a multiple of `b` is a multiple of every `a`
/// that divides `b`.
pub proof fn lemma_mod_transitive(x: int, a: int, b: int)
    requires
        a > 0,
        b > 0,
        b % a == 0,
        x % b == 0,
    ensures
        x % a == 0,
{
    vstd::arithmetic::div_mod::lemma_fundamental_div_mod(x, b);
    vstd::arithmetic::div_mod::lemma_fundamental_div_mod(b, a);
    let p = x / b;
    let q = b / a;
    assert(x == (p * q) * a) by (nonlinear_arith)
        requires
            x == b * p,
            b == a * q,
    ;
    vstd::arithmetic::div_mod::lemma_mod_multiples_basic(p * q, a);
}

/// Clearing the low bits of `x` below a power-of-two `align` rounds `x` down
/// to a multiple of `align`.
pub proof fn lemma_mask_rounds_down(x: usize, align: usize)
    requires
        is_pow2(align as int),
    ensures
        x & !((align - 1) as usize) == (x / align) * align,
{
    let k = pow2_exponent(align);
    vstd::arithmetic::power2::lemma_pow2_pos(k);
    vstd::bits::lemma_usize_low_bits_mask_is_mod(x, k);
    let m = (align - 1) as usize;
    assert(vstd::bits::low_bits_mask(k) == m);
    assert(x & m == x % align);
    assert((x & !m) + (x & m) == x) by (bit_vector);
    vstd::arithmetic::div_mod::lemma_fundamental_div_mod(x as int, align as int);
}

/// The smallest multiple of `align` above `address` is reached by adding
/// `align` and rounding down.
pub proof fn lemma_next_aligned_above(address: usize, align: usize)
    requires
        is_pow2(align as int),
        address + align <= usize::MAX,
    ensures
        ((address + align) as usize) & !((align - 1) as usize) == next_aligned_above(
            address as int,
            align as int,
        ),
{
    lemma_pow2_positive(align);
    lemma_mask_rounds_down((address + align) as usize, align);
    vstd::arithmetic::div_mod::lemma_div_plus_one(address as int, align as int);
}

/// The smallest multiple of `align` above `address` lies in
/// `(address, address + align]` and is a multiple of `align`.
pub proof fn lemma_next_aligned_above_bounds(address: int, align: int)
    requires
        address >= 0,
        align > 0,
    ensures
        address < next_aligned_above(address, align) <= address + align,
        next_aligned_above(address, align) % align == 0,
        next_aligned_above(address, align) >= align,
{
    vstd::arithmetic::div_mod::lemma_fundamental_div_mod(address, align);
    let q = address / align;
    let r = address % align;
    assert(0 <= r < align);
    assert((q + 1) * align == align * q + align) by (nonlinear_arith);
    assert(address == align * q + r);
    vstd::arithmetic::div_mod::lemma_mod_multiples_basic(q + 1, align);
    vstd::arithmetic::div_mod::lemma_div_pos_is_pos(address, align);
    assert((q + 1) * align >= align) by (nonlinear_arith)
        requires
            q >= 0,
            align > 0,
    ;
}

} // verus!
