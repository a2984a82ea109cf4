//! Square-root-price arithmetic shared by the sweeps of the pool and of the standalone shield.
use vstd::prelude::*;

use crate::arith::{distance_u128, div_or_zero, low_u64, mul_saturating, Q64};
#[allow(unused_imports)]
use crate::arith::{cap_u128, distance, max_of, min_of, wrap_u64};

verus! {

/// Distance of `spot` from `reference` in basis points of `base`; zero for a zero base.
pub open spec fn deviation(spot: int, reference: int, base: int) -> int {
    if base == 0 {
        0
    } else {
        cap_u128(distance(spot, reference) * 10_000) / base
    }
}

/// Four fifths of the distance between two square-root prices.
pub open spec fn closing_step(spot: int, reference: int) -> int {
    distance(spot, reference) * 4 / 5
}

/// Amount that moves the square-root price by `step` at the given liquidity.
pub open spec fn amount_for_step(liquidity: int, step: int) -> int {
    cap_u128(liquidity * step) / 0x1_0000_0000_0000_0000
}

/// `amount` lifted to `low` first and cut to `high` then.
pub open spec fn lifted_then_cut(amount: int, low: int, high: int) -> int {
    min_of(max_of(amount, low), high)
}

/// Amount that closes four fifths of the gap, within the configured limits.
pub open spec fn sweep_size(spot: int, reference: int, liquidity: int, low: int, high: int) -> int {
    lifted_then_cut(amount_for_step(liquidity, closing_step(spot, reference)), low, high)
}

/// Virtual reserve of the token that a sweep pays in.
pub open spec fn virtual_reserve(sqrt_price: int, liquidity: int, a_to_b: bool) -> int {
    if a_to_b {
        liquidity / max_of(sqrt_price / 0x1_0000_0000, 1)
    } else {
        cap_u128(liquidity * (sqrt_price / 0x1_0000_0000_0000_0000))
    }
}

/// Amount paid out against `amount`, cut to 64 bits.
pub open spec fn arb_output(sqrt_price: int, liquidity: int, amount: int, a_to_b: bool) -> int {
    let depth = cap_u128(virtual_reserve(sqrt_price, liquidity, a_to_b) + amount);
    if depth == 0 {
        0
    } else {
        wrap_u64(cap_u128(liquidity * amount) / depth)
    }
}

/// Movement of the square-root price when `amount` is swept.
pub open spec fn price_impact(amount: int, liquidity: int) -> int {
    amount * 0x1_0000_0000_0000_0000 / max_of(liquidity, 1)
}

/// Square-root price after a sweep: down from `a` to `b`, up otherwise, within `u128`.
pub open spec fn corrected_price(
    sqrt_price: int,
    liquidity: int,
    amount: int,
    a_to_b: bool,
) -> int {
    if a_to_b {
        max_of(sqrt_price - price_impact(amount, liquidity), 0)
    } else {
        cap_u128(sqrt_price + price_impact(amount, liquidity))
    }
}

/// Distance of `spot` from `reference` in basis points of `base`.
pub fn deviation_bps(spot: u128, reference: u128, base: u128) -> (bps: u128)
    ensures
        bps == deviation(spot as int, reference as int, base as int),
{
    div_or_zero(mul_saturating(distance_u128(spot, reference), 10_000), base)
}

/// Amount to sweep so that four fifths of the gap closes, within `low` and `high`.
pub fn size_of_sweep(spot: u128, reference: u128, liquidity: u128, low: u64, high: u64) -> (amount:
    u64)
    requires
        distance(spot as int, reference as int) * 4 <= u128::MAX,
    ensures
        amount == sweep_size(
            spot as int,
            reference as int,
            liquidity as int,
            low as int,
            high as int,
        ),
{
    let step: u128 = distance_u128(spot, reference) * 4 / 5;
    let raw: u64 = (mul_saturating(liquidity, step) / Q64) as u64;
    let lifted: u64 = if raw > low {
        raw
    } else {
        low
    };
    if lifted < high {
        lifted
    } else {
        high
    }
}

/// Virtual reserve of the token that a sweep pays in.
pub fn reserve_of(sqrt_price: u128, liquidity: u128, a_to_b: bool) -> (reserve: u128)
    ensures
        reserve == virtual_reserve(sqrt_price as int, liquidity as int, a_to_b),
{
    if a_to_b {
        assert(sqrt_price >> 32 == sqrt_price / 0x1_0000_0000) by (bit_vector);
        let scaled: u128 = sqrt_price >> 32;
        let divisor: u128 = if scaled > 1 {
            scaled
        } else {
            1
        };
        liquidity / divisor
    } else {
        assert(sqrt_price >> 64 == sqrt_price / 0x1_0000_0000_0000_0000) by (bit_vector);
        mul_saturating(liquidity, sqrt_price >> 64)
    }
}

/// Amount paid out against `amount`.
pub fn output_of(sqrt_price: u128, liquidity: u128, amount: u64, a_to_b: bool) -> (paid: u64)
    ensures
        paid == arb_output(sqrt_price as int, liquidity as int, amount as int, a_to_b),
{
    let numerator: u128 = mul_saturating(liquidity, amount as u128);
    let depth: u128 = reserve_of(sqrt_price, liquidity, a_to_b).saturating_add(amount as u128);
    low_u64(div_or_zero(numerator, depth))
}

/// Square-root price after `amount` has been swept.
pub fn price_after(sqrt_price: u128, liquidity: u128, amount: u64, a_to_b: bool) -> (price: u128)
    ensures
        price == corrected_price(sqrt_price as int, liquidity as int, amount as int, a_to_b),
{
    let divisor: u128 = if liquidity > 1 {
        liquidity
    } else {
        1
    };
    let impact: u128 = (amount as u128) * Q64 / divisor;
    if a_to_b {
        sqrt_price.saturating_sub(impact)
    } else {
        sqrt_price.saturating_add(impact)
    }
}

// Laws.
/// A floor quotient is the one number whose multiple of the divisor brackets the dividend.
pub proof fn lemma_floor(n: int, d: int, q: int)
    requires
        d > 0,
        q * d <= n < (q + 1) * d,
    ensures
        n / d == q,
{
    assert(n / d == q) by (nonlinear_arith)
        requires
            d > 0,
            q * d <= n < (q + 1) * d,
    ;
}

/// A floor quotient brackets its dividend.
pub proof fn lemma_bracket(n: int, d: int)
    requires
        d > 0,
    ensures
        (n / d) * d <= n < (n / d + 1) * d,
{
    assert((n / d) * d <= n < (n / d + 1) * d) by (nonlinear_arith)
        requires
            d > 0,
    ;
}

/// A price that is `gap` above its reference deviates from it as much as one that is `gap` below:
/// by the whole basis points of `base` in the gap.
pub proof fn deviation_is_the_gap_in_basis_points(reference: int, gap: int, base: int)
    requires
        gap >= 0,
        base > 0,
        gap * 10_000 <= u128::MAX,
    ensures
        deviation(reference - gap, reference, base) == deviation(reference + gap, reference, base),
        deviation(reference + gap, reference, base) * base <= gap * 10_000,
        gap * 10_000 < (deviation(reference + gap, reference, base) + 1) * base,
{
    lemma_bracket(gap * 10_000, base);
}

/// A gap too wide to be measured counts as the widest that can be.
pub proof fn immeasurable_gap_is_the_widest(reference: int, gap: int, base: int)
    requires
        gap * 10_000 > u128::MAX,
        base > 0,
    ensures
        deviation(reference - gap, reference, base) == deviation(reference + gap, reference, base),
        deviation(reference + gap, reference, base) * base <= u128::MAX,
        u128::MAX < (deviation(reference + gap, reference, base) + 1) * base,
{
    lemma_bracket(u128::MAX as int, base);
}

/// Nothing is measured against a base of nothing.
pub proof fn no_deviation_from_nothing(spot: int, reference: int)
    ensures
        deviation(spot, reference, 0) == 0,
{
}

/// A sweep is as large as what moves the price by four fifths of the gap, whichever side the price
/// is on. `step` is that movement, and `size` the amount behind it; the limits of the configuration
/// bound it.
pub proof fn sweep_size_closes_four_fifths(
    reference: int,
    gap: int,
    liquidity: int,
    low: int,
    high: int,
    step: int,
    size: int,
)
    requires
        gap >= 0,
        liquidity >= 0,
        5 * step <= 4 * gap < 5 * step + 5,
        liquidity * step <= u128::MAX,
        size * 0x1_0000_0000_0000_0000 <= liquidity * step < (size + 1) * 0x1_0000_0000_0000_0000,
    ensures
        sweep_size(reference + gap, reference, liquidity, low, high) == sweep_size(
            reference - gap,
            reference,
            liquidity,
            low,
            high,
        ),
        ({
            let swept = sweep_size(reference + gap, reference, liquidity, low, high);
            &&& low <= size <= high ==> swept == size
            &&& size < low <= high ==> swept == low
            &&& size > high ==> swept == high
            &&& low > high ==> swept == high
        }),
{
    lemma_floor(gap * 4, 5, step);
    lemma_floor(liquidity * step, 0x1_0000_0000_0000_0000, size);
    assert(closing_step(reference + gap, reference) == step);
    assert(closing_step(reference - gap, reference) == step);
}

/// A movement whose amount is too large to be measured is swept as the largest that can be, within
/// the limits of the configuration.
pub proof fn immeasurable_sweep_is_the_largest(
    reference: int,
    gap: int,
    liquidity: int,
    low: int,
    high: int,
    step: int,
)
    requires
        gap >= 0,
        5 * step <= 4 * gap < 5 * step + 5,
        liquidity * step > u128::MAX,
        high <= u64::MAX,
    ensures
        sweep_size(reference + gap, reference, liquidity, low, high) == high,
        sweep_size(reference - gap, reference, liquidity, low, high) == high,
{
    lemma_floor(gap * 4, 5, step);
    assert(closing_step(reference + gap, reference) == step);
    assert(closing_step(reference - gap, reference) == step);
}

/// What a sweep that pays in token A gets out: its part of the liquidity against the reserve of
/// that token. `scale` is the price in units of which the reserve is the part of the liquidity, and
/// `reserve` that part. Products and sums stop at the largest value.
pub proof fn output_against_token_a(
    sqrt_price: int,
    liquidity: int,
    amount: int,
    scale: int,
    reserve: int,
    paid: int,
)
    requires
        sqrt_price >= 0,
        amount >= 0,
        liquidity >= 0,
        if sqrt_price < 0x1_0000_0000 {
            scale == 1
        } else {
            scale * 0x1_0000_0000 <= sqrt_price < (scale + 1) * 0x1_0000_0000
        },
        reserve * scale <= liquidity < (reserve + 1) * scale,
        reserve + amount > 0,
        ({
            let product = if liquidity * amount > u128::MAX {
                u128::MAX as int
            } else {
                liquidity * amount
            };
            let depth = if reserve + amount > u128::MAX {
                u128::MAX as int
            } else {
                reserve + amount
            };
            paid * depth <= product < (paid + 1) * depth
        }),
    ensures
        arb_output(sqrt_price, liquidity, amount, true) == paid % 0x1_0000_0000_0000_0000,
{
    if sqrt_price >= 0x1_0000_0000 {
        lemma_floor(sqrt_price, 0x1_0000_0000, scale);
        assert(scale >= 1);
    }
    lemma_floor(liquidity, scale, reserve);
    lemma_floor(cap_u128(liquidity * amount), cap_u128(reserve + amount), paid);
}

/// What a sweep that pays in token B gets out: its part of the liquidity against the reserve of
/// that token, which is the liquidity times the whole part `unit` of the price. Products and sums
/// stop at the largest value.
pub proof fn output_against_token_b(
    sqrt_price: int,
    liquidity: int,
    amount: int,
    unit: int,
    paid: int,
)
    requires
        amount >= 0,
        liquidity >= 0,
        unit >= 0,
        unit * 0x1_0000_0000_0000_0000 <= sqrt_price < (unit + 1) * 0x1_0000_0000_0000_0000,
        liquidity * unit + amount > 0,
        ({
            let product = if liquidity * amount > u128::MAX {
                u128::MAX as int
            } else {
                liquidity * amount
            };
            let depth = if liquidity * unit + amount > u128::MAX {
                u128::MAX as int
            } else {
                liquidity * unit + amount
            };
            paid * depth <= product < (paid + 1) * depth
        }),
    ensures
        arb_output(sqrt_price, liquidity, amount, false) == paid % 0x1_0000_0000_0000_0000,
{
    lemma_floor(sqrt_price, 0x1_0000_0000_0000_0000, unit);
    let depth = cap_u128(cap_u128(liquidity * unit) + amount);
    lemma_floor(cap_u128(liquidity * amount), depth, paid);
}

/// Nothing is paid out for nothing, nor by an empty pool.
pub proof fn nothing_comes_of_nothing(sqrt_price: int, liquidity: int, amount: int, a_to_b: bool)
    requires
        0 <= sqrt_price <= u128::MAX,
        liquidity >= 0,
        amount >= 0,
        liquidity == 0 || amount == 0,
    ensures
        arb_output(sqrt_price, liquidity, amount, a_to_b) == 0,
{
    assert(liquidity * amount == 0) by (nonlinear_arith)
        requires
            liquidity == 0 || amount == 0,
    ;
    let scale = max_of(sqrt_price / 0x1_0000_0000, 1);
    let unit = sqrt_price / 0x1_0000_0000_0000_0000;
    assert(liquidity / scale >= 0 && liquidity * unit >= 0) by (nonlinear_arith)
        requires
            liquidity >= 0,
            scale >= 1,
            unit >= 0,
    ;
    let depth = cap_u128(virtual_reserve(sqrt_price, liquidity, a_to_b) + amount);
    if depth > 0 {
        lemma_floor(0, depth, 0);
    }
}

/// At a price of at least one, a sweep that pays in token B never gets out more than it pays in,
/// and where the reserve is measurable, at most a part of it that shrinks with the price.
pub proof fn dear_pool_pays_no_profit_in_token_a(
    sqrt_price: int,
    liquidity: int,
    amount: int,
    unit: int,
)
    requires
        0 <= amount,
        0 <= liquidity,
        unit >= 1,
        unit * 0x1_0000_0000_0000_0000 <= sqrt_price < (unit + 1) * 0x1_0000_0000_0000_0000,
    ensures
        arb_output(sqrt_price, liquidity, amount, false) <= amount,
        liquidity * unit + amount <= u128::MAX ==> arb_output(sqrt_price, liquidity, amount, false)
            * (liquidity * unit + amount) <= liquidity * amount,
        liquidity * unit + amount <= u128::MAX ==> arb_output(sqrt_price, liquidity, amount, false)
            * unit <= amount,
{
    lemma_floor(sqrt_price, 0x1_0000_0000_0000_0000, unit);
    let product = liquidity * amount;
    let reserve = liquidity * unit;
    let top = cap_u128(product);
    assert(product >= 0 && reserve >= liquidity) by (nonlinear_arith)
        requires
            0 <= amount,
            0 <= liquidity,
            unit >= 1,
            product == liquidity * amount,
            reserve == liquidity * unit,
    ;
    let depth = cap_u128(cap_u128(reserve) + amount);
    let out = arb_output(sqrt_price, liquidity, amount, false);
    if depth > 0 {
        let q = top / depth;
        lemma_bracket(top, depth);
        assert(q >= 0) by (nonlinear_arith)
            requires
                q == top / depth,
                top >= 0,
                depth > 0,
        ;
        assert(out <= q);
        if reserve + amount <= u128::MAX {
            assert(depth == reserve + amount);
            assert(q * depth <= product);
            assert(out * depth <= product) by (nonlinear_arith)
                requires
                    out <= q,
                    q * depth <= product,
                    depth > 0,
            ;
            let scaled = out * unit;
            assert(liquidity * scaled + out * amount == out * depth) by (nonlinear_arith)
                requires
                    depth == liquidity * unit + amount,
                    scaled == out * unit,
            ;
            assert(out * amount >= 0) by (nonlinear_arith)
                requires
                    out >= 0,
                    amount >= 0,
            ;
            if liquidity == 0 {
                assert(out == 0) by (nonlinear_arith)
                    requires
                        out * depth <= 0,
                        depth > 0,
                        out >= 0,
                ;
                assert(scaled == 0);
            } else {
                assert(scaled <= amount) by (nonlinear_arith)
                    requires
                        liquidity * scaled <= liquidity * amount,
                        liquidity > 0,
                ;
            }
            assert(out <= amount) by (nonlinear_arith)
                requires
                    out * unit <= amount,
                    unit >= 1,
                    out >= 0,
            ;
        } else {
            assert(depth == u128::MAX);
            assert(q <= 1) by (nonlinear_arith)
                requires
                    q * depth <= top,
                    top <= depth,
                    depth > 0,
            ;
            if amount == 0 {
                assert(product == 0) by (nonlinear_arith)
                    requires
                        product == liquidity * amount,
                        amount == 0,
                ;
                assert(q == 0) by (nonlinear_arith)
                    requires
                        q * depth <= 0,
                        depth > 0,
                        q >= 0,
                ;
            }
        }
    } else {
        assert(amount == 0 && reserve == 0 && liquidity == 0);
        assert(out == 0);
        assert(0 * (liquidity * unit + amount) == 0 && 0 * unit == 0);
    }
}

/// A sweep moves the price by its amount per liquidity: down where it pays in token A, and up by as
/// much where it pays in token B, within the range of prices.
pub proof fn sweep_moves_price_by_its_amount(
    sqrt_price: int,
    liquidity: int,
    amount: int,
    moved: int,
)
    requires
        sqrt_price >= 0,
        liquidity >= 0,
        if liquidity == 0 {
            moved == amount * 0x1_0000_0000_0000_0000
        } else {
            moved * liquidity <= amount * 0x1_0000_0000_0000_0000 < (moved + 1) * liquidity
        },
    ensures
        moved <= sqrt_price ==> corrected_price(sqrt_price, liquidity, amount, true) == sqrt_price
            - moved,
        moved > sqrt_price ==> corrected_price(sqrt_price, liquidity, amount, true) == 0,
        sqrt_price + moved <= u128::MAX ==> corrected_price(sqrt_price, liquidity, amount, false)
            == sqrt_price + moved,
        sqrt_price + moved > u128::MAX ==> corrected_price(sqrt_price, liquidity, amount, false)
            == u128::MAX,
{
    if liquidity > 0 {
        lemma_floor(amount * 0x1_0000_0000_0000_0000, liquidity, moved);
    } else {
        lemma_floor(amount * 0x1_0000_0000_0000_0000, 1, moved);
    }
}

} // verus!
