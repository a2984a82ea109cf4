//! Profit and loss of a revealed position.
//!
//! The size of a position is what it was worth when it was opened, in units of the quote token. Its
//! prices are in the unit of the oracle. At an oracle price `p` a position of size `s` that was
//! opened at `e` is worth `s * p / e`, rounded toward zero. A long position gains what its worth
//! grows by, and a short position loses as much. A position without an entry price has neither
//! profit nor loss.
use vstd::prelude::*;

#[allow(unused_imports)]
use crate::arith::{div_toward_zero, max_of, min_of};

verus! {

/// What a position is worth at `price`.
pub open spec fn worth(size: u64, entry_price: u128, price: i64) -> int {
    div_toward_zero(size * price, entry_price as int)
}

/// Profit of a position at `price`; a loss is negative.
pub open spec fn profit(is_long: bool, size: u64, entry_price: u128, price: i64) -> int {
    if entry_price == 0 {
        0
    } else if is_long {
        worth(size, entry_price, price) - size
    } else {
        size - worth(size, entry_price, price)
    }
}

/// What is paid out for a position that is closed at `price`: its collateral and its profit, but
/// nothing where the loss exceeds the collateral, and at most the largest token amount.
pub open spec fn payout(
    collateral: u64,
    is_long: bool,
    size: u64,
    entry_price: u128,
    price: i64,
) -> u64 {
    min_of(
        max_of(collateral + profit(is_long, size, entry_price, price), 0),
        u64::MAX as int,
    ) as u64
}

/// `plus` without `minus`: not below nothing, and not above the largest token amount.
fn remainder(plus: u128, minus: u128) -> (amount: u64)
    ensures
        amount == min_of(max_of(plus - minus, 0), u64::MAX as int),
{
    let rest: u128 = plus.saturating_sub(minus);
    if rest > u64::MAX as u128 {
        u64::MAX
    } else {
        rest as u64
    }
}

/// Works out what is paid out for a position that is closed at `price`.
pub fn settle_position(
    collateral: u64,
    is_long: bool,
    size: u64,
    entry_price: u128,
    price: i64,
) -> (amount: u64)
    ensures
        amount == payout(collateral, is_long, size, entry_price, price),
{
    if entry_price == 0 {
        return collateral;
    }
    let level: u128 = if price < 0 {
        (-(price as i128)) as u128
    } else {
        price as u128
    };
    let ghost sign: int = if price < 0 {
        -1
    } else {
        1
    };
    assert(0 <= size * level <= 0xffff_ffff_ffff_ffff * 0x8000_0000_0000_0000) by (nonlinear_arith)
        requires
            0 <= size <= 0xffff_ffff_ffff_ffff,
            0 <= level <= 0x8000_0000_0000_0000,
    ;
    let product: u128 = (size as u128) * level;
    let moved: u128 = product / entry_price;
    assert(size * price == sign * product) by (nonlinear_arith)
        requires
            product == size * level,
            price == sign * level,
    ;
    assert(moved <= product) by (nonlinear_arith)
        requires
            moved == product as int / entry_price as int,
            entry_price > 0,
            product >= 0,
    ;
    assert(worth(size, entry_price, price) == sign * moved) by {
        if product == 0 {
            assert(moved == 0) by (nonlinear_arith)
                requires
                    moved == 0int / entry_price as int,
                    entry_price > 0,
            ;
        }
    }
    let held: u128 = collateral as u128;
    let opened: u128 = size as u128;
    if is_long {
        if price < 0 {
            remainder(held, opened + moved)
        } else {
            remainder(held + moved, opened)
        }
    } else {
        if price < 0 {
            remainder(held + opened + moved, 0)
        } else {
            remainder(held + opened, moved)
        }
    }
}

// Laws.
/// A position of no size pays out its collateral, at every price.
pub proof fn empty_position_pays_its_collateral(
    collateral: u64,
    is_long: bool,
    entry_price: u128,
    price: i64,
)
    ensures
        profit(is_long, 0, entry_price, price) == 0,
        payout(collateral, is_long, 0, entry_price, price) == collateral,
{
    let entry = entry_price as int;
    assert(0int * price == 0);
    if entry > 0 {
        assert(0int / entry == 0) by (nonlinear_arith)
            requires
                entry > 0,
        ;
    }
}

/// Where the price stands at the entry price there is neither profit nor loss.
pub proof fn unmoved_price_pays_the_collateral(
    collateral: u64,
    is_long: bool,
    size: u64,
    entry_price: u128,
    price: i64,
)
    requires
        price == entry_price,
    ensures
        profit(is_long, size, entry_price, price) == 0,
        payout(collateral, is_long, size, entry_price, price) == collateral,
{
    if entry_price > 0 {
        assert(size * price >= 0 && (size * price) / (price as int) == size) by (nonlinear_arith)
            requires
                price > 0,
                size >= 0,
        ;
    }
}

/// What a long position gains a short one loses.
pub proof fn longs_and_shorts_balance(size: u64, entry_price: u128, price: i64)
    ensures
        profit(true, size, entry_price, price) + profit(false, size, entry_price, price) == 0,
{
}

/// A higher price never pays a long position less, nor a short one more.
pub proof fn payout_follows_the_price(
    collateral: u64,
    size: u64,
    entry_price: u128,
    lower: i64,
    higher: i64,
)
    requires
        lower <= higher,
    ensures
        payout(collateral, true, size, entry_price, lower) <= payout(
            collateral,
            true,
            size,
            entry_price,
            higher,
        ),
        payout(collateral, false, size, entry_price, lower) >= payout(
            collateral,
            false,
            size,
            entry_price,
            higher,
        ),
{
    let entry = entry_price as int;
    if entry > 0 {
        let a = size * lower;
        let b = size * higher;
        assert(a <= b) by (nonlinear_arith)
            requires
                a == size * lower,
                b == size * higher,
                size >= 0,
                lower <= higher,
        ;
        if a >= 0 {
            lemma_quotient_grows(a, b, entry);
        } else if b < 0 {
            lemma_quotient_grows(-b, -a, entry);
        } else {
            lemma_quotient_grows(0, -a, entry);
            lemma_quotient_grows(0, b, entry);
        }
    }
}

proof fn lemma_quotient_grows(a: int, b: int, d: int)
    requires
        0 <= a <= b,
        d > 0,
    ensures
        0 <= a / d <= b / d,
{
    assert(0 <= a / d <= b / d) by (nonlinear_arith)
        requires
            0 <= a <= b,
            d > 0,
    ;
}

} // verus!
