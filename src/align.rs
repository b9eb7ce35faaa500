use vstd::arithmetic::div_mod::{
    lemma_fundamental_div_mod, lemma_mod_decreases, lemma_mod_multiples_basic,
};
use vstd::arithmetic::power2::{lemma_pow2_pos, pow2};
use vstd::bits::{lemma_usize_low_bits_mask_is_mod, lemma_usize_shl_is_mul, low_bits_mask};
use vstd::prelude::*;

verus! {

/// `a` is a power of two that fits in a machine word.
pub open spec fn is_pow2(a: nat) -> bool {
    exists|k: nat| k < usize::BITS && a == pow2(k)
}

/// The largest multiple of `a` that is not above `y`.
pub open spec fn align_down_spec(y: nat, a: nat) -> nat {
    (y - y % a) as nat
}

/// The smallest multiple of `a` that is not below `x`.
pub open spec fn align_up_spec(x: nat, a: nat) -> nat {
    align_down_spec((x + a - 1) as nat, a)
}

/// Rounding down stays at or below the value, by less than the divisor.
pub proof fn lemma_align_down_bounds(y: nat, a: nat)
    requires
        a > 0,
    ensures
        align_down_spec(y, a) <= y,
        y < align_down_spec(y, a) + a,
{
    lemma_mod_decreases(y, a);
}

/// Clearing the bits of `y` below a power of two `a` rounds `y` down to a
/// multiple of `a`.
pub proof fn lemma_mask_rounds_down(y: usize, a: usize)
    requires
        is_pow2(a as nat),
    ensures
        (y & !((a - 1) as usize)) as nat == align_down_spec(y as nat, a as nat),
        align_down_spec(y as nat, a as nat) % (a as nat) == 0,
        align_down_spec(y as nat, a as nat) <= y,
{
    let k = choose|k: nat| k < usize::BITS && a as nat == pow2(k);
    lemma_pow2_pos(k);
    assert(low_bits_mask(k) == a - 1);
    lemma_usize_low_bits_mask_is_mod(y, k);
    let m = (a - 1) as usize;
    assert(y & !m == y - (y & m)) by (bit_vector);
    lemma_fundamental_div_mod(y as int, a as int);
    lemma_mod_multiples_basic(y as int / a as int, a as int);
    assert((y as int / a as int) * a as int == a as int * (y as int / a as int)) by (nonlinear_arith);
}

/// A power of two is positive.
pub proof fn lemma_pow2_nonzero(a: nat)
    requires
        is_pow2(a),
    ensures
        a > 0,
{
    let k = choose|k: nat| k < usize::BITS && a == pow2(k);
    lemma_pow2_pos(k);
}

/// A left shift of one by fewer places than the word has bits is the
/// matching power of two.
pub proof fn lemma_shift_is_pow2(k: usize)
    requires
        k < usize::BITS,
    ensures
        (1usize << k) as nat == pow2(k as nat),
        is_pow2((1usize << k) as nat),
{
    vstd::bits::lemma_usize_pow2_no_overflow(k as nat);
    lemma_usize_shl_is_mul(1, k);
}

/// Rounds `addr` up to a multiple of the power of two `align`.
pub fn align_up(addr: usize, align: usize) -> (r: usize)
    requires
        is_pow2(align as nat),
        addr + align - 1 <= usize::MAX,
    ensures
        r as nat == align_up_spec(addr as nat, align as nat),
        r % align == 0,
        addr <= r,
{
    proof {
        lemma_pow2_nonzero(align as nat);
    }
    let y: usize = addr + (align - 1);
    proof {
        lemma_mask_rounds_down(y, align);
    }
    y & !(align - 1)
}

} // verus!
