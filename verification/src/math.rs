//! Alignment and power-of-two arithmetic.

use vstd::prelude::*;
use vstd::arithmetic::power2::{
    lemma2_to64,
    lemma2_to64_rest,
    lemma_pow2_pos,
    lemma_pow2_strictly_increases,
    lemma_pow2_unfold,
    pow2,
};

verus! {

/// The least multiple of `alignment` that is not below `value`.
pub open spec fn aligned(value: int, alignment: int) -> int
    recommends
        value >= 0,
        alignment > 0,
{
    if value % alignment == 0 {
        value
    } else {
        value + alignment - value % alignment
    }
}

/// `aligned(value, alignment)` is a multiple of `alignment`, lies in
/// `[value, value + alignment)`, and no smaller multiple is `>= value`.
pub proof fn lemma_aligned_is_least_multiple(value: int, alignment: int)
    requires
        value >= 0,
        alignment > 0,
    ensures
        aligned(value, alignment) >= value,
        aligned(value, alignment) % alignment == 0,
        aligned(value, alignment) - value < alignment,
        forall|m: int| m >= value && #[trigger] (m % alignment) == 0 ==> m >= aligned(value, alignment),
{
    let r = value % alignment;
    let a = aligned(value, alignment);
    assert(0 <= r < alignment && value == alignment * (value / alignment) + r) by (nonlinear_arith)
        requires
            alignment > 0,
            r == value % alignment,
    ;
    if r != 0 {
        assert(a == alignment * (value / alignment + 1)) by (nonlinear_arith)
            requires
                a == value + alignment - r,
                value == alignment * (value / alignment) + r,
        ;
        assert(a % alignment == 0) by (nonlinear_arith)
            requires
                alignment > 0,
                a == alignment * (value / alignment + 1),
        ;
    }
    assert forall|m: int| m >= value && #[trigger] (m % alignment) == 0 implies m >= a by {
        if m < a {
            // value <= m < a and both m and a are multiples: impossible
            assert(false) by (nonlinear_arith)
                requires
                    alignment > 0,
                    value <= m < a,
                    a - value < alignment,
                    m % alignment == 0,
                    a % alignment == 0,
            ;
        }
    }
}

/// Rounds `value` up to the next multiple of `alignment`.
pub fn align(value: usize, alignment: usize) -> (result: usize)
    requires
        alignment > 0,
        aligned(value as int, alignment as int) <= usize::MAX,
    ensures
        result == aligned(value as int, alignment as int),
        result >= value,
        result % alignment == 0,
        result - value < alignment,
{
    proof {
        lemma_aligned_is_least_multiple(value as int, alignment as int);
    }
    let rest: usize = value % alignment;
    if rest == 0 {
        value
    } else {
        value + (alignment - rest)
    }
}

/// Rounds `value` up to the next multiple of the alignment of `T`.
pub fn align_to<T>(value: usize) -> (result: usize)
    requires
        aligned(value as int, vstd::layout::align_of::<T>() as int) <= usize::MAX,
    ensures
        result == aligned(value as int, vstd::layout::align_of::<T>() as int),
        result >= value,
        result as int % vstd::layout::align_of::<T>() as int == 0,
        result - value < vstd::layout::align_of::<T>(),
{
    vstd::layout::layout_for_type_is_valid::<T>();
    align(value, core::mem::align_of::<T>())
}

/// The logarithm to base two, rounded down; zero for zero.
pub open spec fn floor_log2(value: nat) -> nat
    decreases value,
{
    if value <= 1 {
        0
    } else {
        1 + floor_log2(value / 2)
    }
}

/// `floor_log2` is the exponent of the greatest power of two that is not
/// above the value.
pub proof fn lemma_floor_log2_bounds(value: nat)
    requires
        value > 0,
    ensures
        pow2(floor_log2(value)) <= value < 2 * pow2(floor_log2(value)),
    decreases value,
{
    if value <= 1 {
        lemma2_to64();
    } else {
        lemma_floor_log2_bounds(value / 2);
        lemma_pow2_unfold(floor_log2(value));
    }
}

/// The logarithm of a power of two is its exponent.
pub proof fn lemma_floor_log2_of_pow2(exponent: nat)
    ensures
        floor_log2(pow2(exponent)) == exponent,
    decreases exponent,
{
    if exponent == 0 {
        lemma2_to64();
    } else {
        lemma_pow2_unfold(exponent);
        lemma_pow2_pos((exponent - 1) as nat);
        lemma_floor_log2_of_pow2((exponent - 1) as nat);
        assert(pow2(exponent) / 2 == pow2((exponent - 1) as nat));
    }
}

/// The logarithm to base two of `value`, rounded down, and zero for zero.
/// For a power of two this is its exponent.
pub fn log2_of_power_of_2(value: u64) -> (result: u8)
    ensures
        result == floor_log2(value as nat),
        result < 64,
        forall|exponent: nat| value == pow2(exponent) ==> result == exponent,
{
    let mut bits: u64 = value;
    let mut i: u8 = 0;
    proof {
        lemma2_to64();
    }
    while i < 64
        invariant
            i <= 64,
            value > 0 ==> floor_log2(value as nat) == i + floor_log2(bits as nat),
            value > 0 ==> bits > 0,
            value == 0 ==> bits == 0,
            (bits as nat) * pow2(i as nat) <= value,
        decreases 64 - i,
    {
        if bits == 1 {
            proof {
                lemma_log2_of_pow2_is_exponent(value);
            }
            return i;
        }
        proof {
            assert(bits >> 1 == bits / 2) by (bit_vector);
            lemma_pow2_unfold((i + 1) as nat);
            if value > 0 {
                assert(floor_log2(bits as nat) == 1 + floor_log2((bits / 2) as nat));
                assert((bits / 2) as nat * (2 * pow2(i as nat)) <= bits as nat * pow2(i as nat))
                    by (nonlinear_arith)
                    requires
                        bits >= 2,
                ;
            } else {
                assert(bits == 0);
                assert((bits / 2) as nat * pow2((i + 1) as nat) == 0) by (nonlinear_arith)
                    requires
                        bits == 0,
                ;
            }
        }
        bits >>= 1;
        i += 1;
    }
    proof {
        lemma2_to64();
        if value > 0 {
            assert(bits as nat * pow2(64) >= pow2(64)) by (nonlinear_arith)
                requires
                    bits >= 1,
            ;
        }
        lemma_log2_of_pow2_is_exponent(value);
    }
    0
}

proof fn lemma_log2_of_pow2_is_exponent(value: u64)
    ensures
        forall|exponent: nat| value == pow2(exponent) ==> floor_log2(value as nat) == exponent,
{
    assert forall|exponent: nat| value == pow2(exponent) implies floor_log2(value as nat)
        == exponent by {
        lemma_floor_log2_of_pow2(exponent);
    }
}

/// The least power of two that is not below `value`.
pub open spec fn next_pow2(value: nat) -> nat
    decreases value,
{
    if value <= 1 {
        1
    } else {
        2 * next_pow2((value + 1) / 2)
    }
}

/// `next_pow2(value)` is a power of two, is not below `value`, and its half
/// is.
pub proof fn lemma_next_pow2(value: nat)
    requires
        value > 0,
    ensures
        exists|exponent: nat| next_pow2(value) == pow2(exponent),
        value <= next_pow2(value) < 2 * value,
    decreases value,
{
    if value <= 1 {
        lemma2_to64();
        assert(next_pow2(value) == pow2(0));
    } else {
        lemma_next_pow2((value + 1) / 2);
        let exponent = choose|exponent: nat| next_pow2((value + 1) / 2) == pow2(exponent);
        lemma_pow2_unfold(exponent + 1);
        assert(next_pow2(value) == pow2(exponent + 1));
    }
}

/// The one power of two in `[value, 2 * value)` is `next_pow2(value)`.
pub proof fn lemma_next_pow2_is_unique(value: nat, exponent: nat)
    requires
        value <= pow2(exponent) < 2 * value,
    ensures
        pow2(exponent) == next_pow2(value),
{
    lemma_next_pow2(value);
    let other = choose|other: nat| next_pow2(value) == pow2(other);
    if exponent < other {
        lemma_pow2_strictly_increases(exponent, other);
        lemma_pow2_unfold(other);
        if exponent + 1 < other {
            lemma_pow2_strictly_increases(exponent + 1, other);
        }
        lemma_pow2_unfold(exponent + 1);
    } else if other < exponent {
        lemma_pow2_strictly_increases(other, exponent);
        lemma_pow2_unfold(exponent);
        if other + 1 < exponent {
            lemma_pow2_strictly_increases(other + 1, exponent);
        }
        lemma_pow2_unfold(other + 1);
    }
}

/// Rounds `value` up to the next power of two.
pub fn round_to_pow2(value: u64) -> (result: u64)
    requires
        1 <= value <= 0x8000_0000_0000_0000,
    ensures
        result == next_pow2(value as nat),
        value <= result < 2 * value,
        exists|exponent: nat| result == pow2(exponent),
{
    let start: u64 = value - 1;
    let mut smeared: u64 = start;
    smeared |= smeared >> 1;
    smeared |= smeared >> 2;
    smeared |= smeared >> 4;
    smeared |= smeared >> 8;
    smeared |= smeared >> 16;
    smeared |= smeared >> 32;
    proof {
        lemma_smeared(start, smeared);
    }
    let result: u64 = smeared + 1;
    proof {
        assert((result - 1) as u64 == smeared);
        assert(result == (smeared + 1) as u64);
        lemma_power_of_two_has_exponent(result);
        let exponent = choose|exponent: nat| result == pow2(exponent);
        lemma_next_pow2_is_unique(value as nat, exponent);
    }
    result
}

proof fn lemma_smeared(start: u64, smeared: u64)
    by (bit_vector)
    requires
        start < 0x8000_0000_0000_0000,
        smeared == {
            let a = start | (start >> 1);
            let b = a | (a >> 2);
            let c = b | (b >> 4);
            let d = c | (c >> 8);
            let e = d | (d >> 16);
            e | (e >> 32)
        },
    ensures
        smeared < 0x8000_0000_0000_0000,
        start <= smeared,
        start == 0 ==> smeared == 0,
        start > 0 ==> smeared < 2 * start,
        ((smeared + 1) as u64) & smeared == 0,
{
}

proof fn lemma_single_bit(value: u64)
    by (bit_vector)
    requires
        value != 0,
        value & ((value - 1) as u64) == 0,
    ensures
        value == 0x1 || value == 0x2 || value == 0x4 || value == 0x8 || value == 0x10 || value == 0x20 || value == 0x40 || value == 0x80 || value == 0x100 || value == 0x200 || value == 0x400 || value == 0x800 || value == 0x1000 || value == 0x2000 || value == 0x4000 || value == 0x8000 || value == 0x10000 || value == 0x20000 || value == 0x40000 || value == 0x80000 || value == 0x100000 || value == 0x200000 || value == 0x400000 || value == 0x800000 || value == 0x1000000 || value == 0x2000000 || value == 0x4000000 || value == 0x8000000 || value == 0x10000000 || value == 0x20000000 || value == 0x40000000 || value == 0x80000000 || value == 0x100000000 || value == 0x200000000 || value == 0x400000000 || value == 0x800000000 || value == 0x1000000000 || value == 0x2000000000 || value == 0x4000000000 || value == 0x8000000000 || value == 0x10000000000 || value == 0x20000000000 || value == 0x40000000000 || value == 0x80000000000 || value == 0x100000000000 || value == 0x200000000000 || value == 0x400000000000 || value == 0x800000000000 || value == 0x1000000000000 || value == 0x2000000000000 || value == 0x4000000000000 || value == 0x8000000000000 || value == 0x10000000000000 || value == 0x20000000000000 || value == 0x40000000000000 || value == 0x80000000000000 || value == 0x100000000000000 || value == 0x200000000000000 || value == 0x400000000000000 || value == 0x800000000000000 || value == 0x1000000000000000 || value == 0x2000000000000000 || value == 0x4000000000000000 || value == 0x8000000000000000,
{
}

proof fn lemma_power_of_two_has_exponent(value: u64)
    requires
        value != 0,
        value & ((value - 1) as u64) == 0,
    ensures
        exists|exponent: nat| value == pow2(exponent),
{
    lemma_single_bit(value);
    lemma2_to64();
    lemma2_to64_rest();
    if value == 0x1 {
        assert(value == pow2(0));
    }     else if value == 0x2 {
        assert(value == pow2(1));
    }     else if value == 0x4 {
        assert(value == pow2(2));
    }     else if value == 0x8 {
        assert(value == pow2(3));
    }     else if value == 0x10 {
        assert(value == pow2(4));
    }     else if value == 0x20 {
        assert(value == pow2(5));
    }     else if value == 0x40 {
        assert(value == pow2(6));
    }     else if value == 0x80 {
        assert(value == pow2(7));
    }     else if value == 0x100 {
        assert(value == pow2(8));
    }     else if value == 0x200 {
        assert(value == pow2(9));
    }     else if value == 0x400 {
        assert(value == pow2(10));
    }     else if value == 0x800 {
        assert(value == pow2(11));
    }     else if value == 0x1000 {
        assert(value == pow2(12));
    }     else if value == 0x2000 {
        assert(value == pow2(13));
    }     else if value == 0x4000 {
        assert(value == pow2(14));
    }     else if value == 0x8000 {
        assert(value == pow2(15));
    }     else if value == 0x10000 {
        assert(value == pow2(16));
    }     else if value == 0x20000 {
        assert(value == pow2(17));
    }     else if value == 0x40000 {
        assert(value == pow2(18));
    }     else if value == 0x80000 {
        assert(value == pow2(19));
    }     else if value == 0x100000 {
        assert(value == pow2(20));
    }     else if value == 0x200000 {
        assert(value == pow2(21));
    }     else if value == 0x400000 {
        assert(value == pow2(22));
    }     else if value == 0x800000 {
        assert(value == pow2(23));
    }     else if value == 0x1000000 {
        assert(value == pow2(24));
    }     else if value == 0x2000000 {
        assert(value == pow2(25));
    }     else if value == 0x4000000 {
        assert(value == pow2(26));
    }     else if value == 0x8000000 {
        assert(value == pow2(27));
    }     else if value == 0x10000000 {
        assert(value == pow2(28));
    }     else if value == 0x20000000 {
        assert(value == pow2(29));
    }     else if value == 0x40000000 {
        assert(value == pow2(30));
    }     else if value == 0x80000000 {
        assert(value == pow2(31));
    }     else if value == 0x100000000 {
        assert(value == pow2(32));
    }     else if value == 0x200000000 {
        assert(value == pow2(33));
    }     else if value == 0x400000000 {
        assert(value == pow2(34));
    }     else if value == 0x800000000 {
        assert(value == pow2(35));
    }     else if value == 0x1000000000 {
        assert(value == pow2(36));
    }     else if value == 0x2000000000 {
        assert(value == pow2(37));
    }     else if value == 0x4000000000 {
        assert(value == pow2(38));
    }     else if value == 0x8000000000 {
        assert(value == pow2(39));
    }     else if value == 0x10000000000 {
        assert(value == pow2(40));
    }     else if value == 0x20000000000 {
        assert(value == pow2(41));
    }     else if value == 0x40000000000 {
        assert(value == pow2(42));
    }     else if value == 0x80000000000 {
        assert(value == pow2(43));
    }     else if value == 0x100000000000 {
        assert(value == pow2(44));
    }     else if value == 0x200000000000 {
        assert(value == pow2(45));
    }     else if value == 0x400000000000 {
        assert(value == pow2(46));
    }     else if value == 0x800000000000 {
        assert(value == pow2(47));
    }     else if value == 0x1000000000000 {
        assert(value == pow2(48));
    }     else if value == 0x2000000000000 {
        assert(value == pow2(49));
    }     else if value == 0x4000000000000 {
        assert(value == pow2(50));
    }     else if value == 0x8000000000000 {
        assert(value == pow2(51));
    }     else if value == 0x10000000000000 {
        assert(value == pow2(52));
    }     else if value == 0x20000000000000 {
        assert(value == pow2(53));
    }     else if value == 0x40000000000000 {
        assert(value == pow2(54));
    }     else if value == 0x80000000000000 {
        assert(value == pow2(55));
    }     else if value == 0x100000000000000 {
        assert(value == pow2(56));
    }     else if value == 0x200000000000000 {
        assert(value == pow2(57));
    }     else if value == 0x400000000000000 {
        assert(value == pow2(58));
    }     else if value == 0x800000000000000 {
        assert(value == pow2(59));
    }     else if value == 0x1000000000000000 {
        assert(value == pow2(60));
    }     else if value == 0x2000000000000000 {
        assert(value == pow2(61));
    }     else if value == 0x4000000000000000 {
        assert(value == pow2(62));
    }     else if value == 0x8000000000000000 {
        assert(value == pow2(63));
    }
}

} // verus!
