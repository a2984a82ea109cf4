//! Fixed-width integer operations with exact contracts over the mathematical integers.
use vstd::prelude::*;

verus! {

/// One in 64.64 fixed point.
pub const Q64: u128 = 0x1_0000_0000_0000_0000;

/// Basis points in a whole.
pub const BPS: u128 = 10_000;

/// `x`, or the largest `u128` where `x` exceeds it.
pub open spec fn cap_u128(x: int) -> int {
    if x > u128::MAX {
        u128::MAX as int
    } else {
        x
    }
}

/// The distance between two values.
pub open spec fn distance(a: int, b: int) -> int {
    if a > b {
        a - b
    } else {
        b - a
    }
}

pub open spec fn max_of(a: int, b: int) -> int {
    if a > b {
        a
    } else {
        b
    }
}

pub open spec fn min_of(a: int, b: int) -> int {
    if a < b {
        a
    } else {
        b
    }
}

/// `a / d` rounded toward zero, for a positive `d`.
pub open spec fn div_toward_zero(a: int, d: int) -> int {
    if a >= 0 {
        a / d
    } else {
        -((-a) / d)
    }
}

/// The value of the low 32 bits of `x` in two's complement.
pub open spec fn wrap_i32(x: int) -> int {
    (x + 0x8000_0000) % 0x1_0000_0000 - 0x8000_0000
}

/// The value of the low 64 bits of `x` read without a sign.
pub open spec fn wrap_u64(x: int) -> int {
    x % 0x1_0000_0000_0000_0000
}

/// `amount * bps / 10_000`, rounded down.
pub open spec fn share_of(amount: int, bps: int) -> int {
    amount * bps / 10_000
}

/// Product that stops at `u128::MAX`.
pub fn mul_saturating(a: u128, b: u128) -> (product: u128)
    ensures
        product == cap_u128(a * b),
{
    match a.checked_mul(b) {
        Some(product) => product,
        None => u128::MAX,
    }
}

/// `x`, or the nearest `i128` where `x` is outside their range.
pub open spec fn clamp_i128(x: int) -> int {
    if x > i128::MAX {
        i128::MAX as int
    } else if x < i128::MIN {
        i128::MIN as int
    } else {
        x
    }
}

/// Sum that stops at the ends of the range.
pub fn add_saturating_i128(a: i128, b: i128) -> (sum: i128)
    ensures
        sum == clamp_i128(a + b),
{
    match a.checked_add(b) {
        Some(sum) => sum,
        None => if b > 0 {
            i128::MAX
        } else {
            i128::MIN
        },
    }
}

/// Quotient, or zero for a zero divisor.
pub fn div_or_zero(a: u128, b: u128) -> (quotient: u128)
    ensures
        quotient == (if b == 0 { 0int } else { a as int / b as int }),
{
    if b == 0 {
        0
    } else {
        a / b
    }
}

/// Distance between two values.
pub fn distance_u128(a: u128, b: u128) -> (gap: u128)
    ensures
        gap == distance(a as int, b as int),
{
    if a > b {
        a - b
    } else {
        b - a
    }
}

/// The low 64 bits of `x`.
pub fn low_u64(x: u128) -> (low: u64)
    ensures
        low == wrap_u64(x as int),
{
    assert((x as u64) == x % 0x1_0000_0000_0000_0000) by (bit_vector);
    #[verifier::truncate]
    (x as u64)
}

/// The low 32 bits of `x`.
pub fn low_u32(x: u64) -> (low: u32)
    ensures
        low == x as int % 0x1_0000_0000,
{
    assert((x as u32) == x % 0x1_0000_0000) by (bit_vector);
    #[verifier::truncate]
    (x as u32)
}

/// The low 16 bits of `x`.
pub fn low_u16(x: u128) -> (low: u16)
    ensures
        low == x as int % 0x1_0000,
{
    assert((x as u16) == x % 0x1_0000) by (bit_vector);
    #[verifier::truncate]
    (x as u16)
}

/// The low 32 bits of `x`, in two's complement.
pub fn low_i32(x: i64) -> (low: i32)
    ensures
        low == wrap_i32(x as int),
{
    assert((x as i32) == (x + 0x8000_0000) % 0x1_0000_0000 - 0x8000_0000) by (bit_vector);
    #[verifier::truncate]
    (x as i32)
}

/// `amount * bps / 10_000`, cut to 64 bits.
pub fn bps_share(amount: u64, bps: u16) -> (share: u64)
    ensures
        share == wrap_u64(share_of(amount as int, bps as int)),
        bps <= 10_000 ==> share == share_of(amount as int, bps as int) && share <= amount,
{
    proof {
        lemma_share_in_range(amount as int, bps as int);
    }
    low_u64((amount as u128) * (bps as u128) / BPS)
}

/// A share of at most all of an amount does not exceed the amount.
pub proof fn lemma_share_in_range(amount: int, bps: int)
    requires
        0 <= amount <= u64::MAX,
        0 <= bps <= u16::MAX,
    ensures
        0 <= amount * bps <= u128::MAX,
        0 <= share_of(amount, bps),
        bps <= 10_000 ==> share_of(amount, bps) <= amount,
{
    assert(0 <= amount * bps <= u64::MAX * u16::MAX) by (nonlinear_arith)
        requires
            0 <= amount <= u64::MAX,
            0 <= bps <= u16::MAX,
    ;
    if bps <= 10_000 {
        assert(amount * bps <= amount * 10_000) by (nonlinear_arith)
            requires
                0 <= amount,
                0 <= bps <= 10_000,
        ;
    }
}

// Laws.
/// A distance is the same from both ends, and is what separates them.
pub proof fn distance_is_symmetric(a: int, gap: int)
    requires
        gap >= 0,
    ensures
        distance(a + gap, a) == gap,
        distance(a, a + gap) == gap,
{
}

/// A cap keeps what is within it, and stops the rest at the largest value.
pub proof fn cap_keeps_what_fits(x: int)
    ensures
        x <= 0xffff_ffff_ffff_ffff_ffff_ffff_ffff_ffff ==> cap_u128(x) == x,
        x > 0xffff_ffff_ffff_ffff_ffff_ffff_ffff_ffff ==> cap_u128(x)
            == 0xffff_ffff_ffff_ffff_ffff_ffff_ffff_ffff,
{
}

/// The smaller and the larger of two values are one of them each, and stand in order.
pub proof fn smaller_and_larger(a: int, b: int)
    ensures
        min_of(a, b) <= a && min_of(a, b) <= b,
        max_of(a, b) >= a && max_of(a, b) >= b,
        min_of(a, b) + max_of(a, b) == a + b,
{
}

/// Rounding toward zero loses less than one divisor, and treats both signs alike.
pub proof fn rounding_is_toward_zero(a: int, d: int)
    requires
        a >= 0,
        d > 0,
    ensures
        div_toward_zero(a, d) * d <= a < (div_toward_zero(a, d) + 1) * d,
        div_toward_zero(-a, d) == -div_toward_zero(a, d),
{
    assert((a / d) * d <= a < (a / d + 1) * d) by (nonlinear_arith)
        requires
            a >= 0,
            d > 0,
    ;
    if a == 0 {
        assert(0int / d == 0) by (nonlinear_arith)
            requires
                d > 0,
        ;
    }
}

/// Cutting to bits loses only multiples of the range, and keeps what fits.
pub proof fn cut_keeps_the_low_bits(x: int)
    ensures
        0 <= wrap_u64(x) < 0x1_0000_0000_0000_0000,
        (x - wrap_u64(x)) % 0x1_0000_0000_0000_0000 == 0,
        -0x8000_0000 <= wrap_i32(x) < 0x8000_0000,
        (x - wrap_i32(x)) % 0x1_0000_0000 == 0,
{
}

/// A share in basis points is the largest number whose ten-thousand-fold does not exceed the
/// product.
pub proof fn share_is_in_basis_points(amount: int, bps: int)
    ensures
        share_of(amount, bps) * 10_000 <= amount * bps < (share_of(amount, bps) + 1) * 10_000,
{
}

/// A sum of signed numbers stops at the ends of 128 bits, and is exact between them.
pub proof fn clamp_keeps_what_fits(x: int)
    ensures
        i128::MIN <= x <= i128::MAX ==> clamp_i128(x) == x,
        x > i128::MAX ==> clamp_i128(x) == i128::MAX,
        x < i128::MIN ==> clamp_i128(x) == i128::MIN,
{
}

} // verus!
