//! What the instructions on committed positions do, in terms of the numbers in their accounts.
use vstd::prelude::*;

#[allow(unused_imports)]
use crate::commitment::position_digest;
#[allow(unused_imports)]
use crate::drift::error::ErrorCode;
#[allow(unused_imports)]
use crate::drift::instructions::commitment::{
    check_outcome, close_outcome, fresh_position, LiquidationCheckResult,
};
use crate::drift::instructions::commitment::{
    ClosePerpWithReveal, OpenPerpWithCommitment, PerpShieldLiquidationCheck,
};
#[allow(unused_imports)]
use crate::drift::pnl::payout;
use crate::drift::state::perp_market::PerpMarket;
#[allow(unused_imports)]
use crate::pricing::lemma_floor;

verus! {

/// What is due, as a token amount: nothing where it is below nothing, and at most the largest.
pub open spec fn as_amount(due: int) -> int {
    if due < 0 {
        0
    } else if due > u64::MAX {
        u64::MAX as int
    } else {
        due
    }
}

/// At a price that is not below zero a position is worth its size times the price over its entry
/// price, rounded down. A long is paid its collateral with what it is worth beyond its size, a
/// short its collateral with what its size is beyond its worth.
pub proof fn payout_is_collateral_and_profit(
    collateral: u64,
    size: u64,
    entry_price: u128,
    price: i64,
    worth: int,
)
    requires
        entry_price > 0,
        price >= 0,
        worth * entry_price <= size * price < (worth + 1) * entry_price,
    ensures
        payout(collateral, true, size, entry_price, price) == as_amount(collateral + worth - size),
        payout(collateral, false, size, entry_price, price) == as_amount(collateral + size - worth),
{
    assert(size * price >= 0) by (nonlinear_arith)
        requires
            size >= 0,
            price >= 0,
    ;
    lemma_floor(size * price, entry_price as int, worth);
}

/// At a price below zero a position is worth less than nothing: it owes its size times the price
/// over its entry price, rounded down. A long loses that with its size, a short gains it with its
/// size.
pub proof fn payout_below_zero(
    collateral: u64,
    size: u64,
    entry_price: u128,
    price: i64,
    owed: int,
)
    requires
        entry_price > 0,
        price < 0,
        owed * entry_price <= size * -price < (owed + 1) * entry_price,
    ensures
        payout(collateral, true, size, entry_price, price) == as_amount(collateral - owed - size),
        payout(collateral, false, size, entry_price, price) == as_amount(collateral + size + owed),
{
    assert(size * price == -(size * -price)) by (nonlinear_arith);
    assert(size * -price >= 0) by (nonlinear_arith)
        requires
            size >= 0,
            price < 0,
    ;
    lemma_floor(size * -price, entry_price as int, owed);
}

/// A position without an entry price is paid its collateral.
pub proof fn payout_without_entry_price(collateral: u64, is_long: bool, size: u64, price: i64)
    ensures
        payout(collateral, is_long, size, 0, price) == collateral,
{
}

/// A close is refused where there is no position, where another than its owner asks for it, and
/// where the details do not match, in that order. Any other pays the owner what the position comes
/// to at the oracle price, and the lamports of its account, and is published with that amount.
pub proof fn close_pays_the_owner(
    ctx: ClosePerpWithReveal,
    matches: bool,
    size: u64,
    entry_price_x64: u128,
    slot: u64,
)
    ensures
        match (close_outcome(ctx, matches, size, entry_price_x64, slot), ctx.position_commitment) {
            (Err(error), None) => error == ErrorCode::AccountNotInitialized,
            (Err(error), Some(position)) => {
                ||| position.owner != ctx.owner && error == ErrorCode::NotSender
                ||| position.owner == ctx.owner && !matches && error == ErrorCode::InvalidCommitment
            },
            (Ok(end), Some(position)) => {
                &&& position.owner == ctx.owner
                &&& matches
                &&& end.collateral_returned == payout(
                    position.collateral_amount,
                    position.is_long,
                    size,
                    entry_price_x64,
                    ctx.perp_market.last_oracle_price,
                )
                &&& end.rent_to == ctx.owner
                &&& end.event.market == ctx.market_key
                &&& end.event.owner == ctx.owner
                &&& end.event.is_long == position.is_long
                &&& end.event.collateral_returned == end.collateral_returned
                &&& end.event.slot == slot
            },
            (Ok(_), None) => false,
        },
{
}

/// A close leaves no position account, and a market with one user less; an open leaves a market
/// with one user more. The counts stay within their range, and nothing else changes.
pub proof fn opens_and_closes_are_counted(ctx: ClosePerpWithReveal, market: PerpMarket)
    ensures
        ({
            let after = ctx.closed();
            &&& after.position_commitment is None
            &&& after.owner == ctx.owner
            &&& after.market_key == ctx.market_key
            &&& after.perp_market == ctx.perp_market.user_left()
        }),
        ({
            let left = market.user_left();
            &&& market.number_of_users > 0 ==> left.number_of_users == market.number_of_users - 1
            &&& market.number_of_users == 0 ==> left.number_of_users == 0
            &&& market.number_of_users_with_base > 0 ==> left.number_of_users_with_base
                == market.number_of_users_with_base - 1
            &&& market.number_of_users_with_base == 0 ==> left.number_of_users_with_base == 0
            &&& left == (PerpMarket {
                number_of_users: left.number_of_users,
                number_of_users_with_base: left.number_of_users_with_base,
                ..market
            })
        }),
        ({
            let joined = market.user_joined();
            &&& market.number_of_users < u32::MAX ==> joined.number_of_users
                == market.number_of_users + 1
            &&& market.number_of_users == u32::MAX ==> joined.number_of_users == u32::MAX
            &&& market.number_of_users_with_base < u32::MAX ==> joined.number_of_users_with_base
                == market.number_of_users_with_base + 1
            &&& market.number_of_users_with_base == u32::MAX ==> joined.number_of_users_with_base
                == u32::MAX
            &&& joined == (PerpMarket {
                number_of_users: joined.number_of_users,
                number_of_users_with_base: joined.number_of_users_with_base,
                ..market
            })
        }),
{
}

/// A new position holds its trader, its market, its digest, its collateral and its side; it was
/// opened and last changed in the slot of the open.
pub proof fn position_is_what_was_opened(
    ctx: OpenPerpWithCommitment,
    collateral_amount: u64,
    is_long: bool,
    commitment: [u8; 32],
    slot: u64,
)
    ensures
        ({
            let position = fresh_position(ctx, collateral_amount, is_long, commitment, slot);
            &&& position.owner == ctx.owner
            &&& position.market == ctx.market_key
            &&& position.commitment == commitment
            &&& position.collateral_amount == collateral_amount
            &&& position.is_long == is_long
            &&& position.committed_at_slot == slot
            &&& position.last_updated_slot == slot
            &&& position.bump == ctx.position_bump
            &&& forall|i: int| 0 <= i < 7 ==> #[trigger] position.padding[i] == 0
        }),
{
}

/// A check is refused where the details do not match, and in a market that only shrinks where the
/// oracle price is not above zero. Any other is judged by the oracle price against the liquidation
/// price, as the whole numbers that they are: a long stands exactly while the oracle price is
/// above, a short exactly while it is below. Of a position that does not stand a tenth of the
/// collateral remains, rounded down, and the rest counts as lost; one of which nothing remains is
/// insolvent, and leaves no shortfall.
pub proof fn oracle_price_decides_on_liquidation(
    ctx: PerpShieldLiquidationCheck,
    matches: bool,
    liquidation_price: u128,
)
    ensures
        ({
            let price = ctx.perp_market.last_oracle_price as int;
            let collateral = ctx.position_commitment.collateral_amount;
            let unpriced = ctx.perp_market.reduce_only && price <= 0;
            let stands = if ctx.position_commitment.is_long {
                price > liquidation_price
            } else {
                price < liquidation_price
            };
            match check_outcome(ctx, matches, liquidation_price) {
                Err(ErrorCode::InvalidCommitment) => !matches,
                Err(ErrorCode::MarketNotFound) => matches && unpriced,
                Err(_) => false,
                Ok(LiquidationCheckResult::Healthy) => matches && !unpriced && stands,
                Ok(LiquidationCheckResult::Underwater { collateral_remaining, estimated_loss }) => {
                    &&& matches && !unpriced && !stands
                    &&& collateral >= 10
                    &&& collateral_remaining * 10 <= collateral < collateral_remaining * 10 + 10
                    &&& collateral_remaining + estimated_loss == collateral
                },
                Ok(LiquidationCheckResult::Insolvent { insurance_shortfall }) => {
                    &&& matches && !unpriced && !stands
                    &&& collateral < 10
                    &&& insurance_shortfall == 0
                },
            }
        }),
{
}

/// The details that open a position are those whose digest it was committed to.
pub proof fn digest_opens_the_position(
    ctx: ClosePerpWithReveal,
    size: u64,
    leverage_bps: u16,
    entry_price_x64: u128,
    liquidation_price_x64: u128,
    salt: [u8; 16],
)
    ensures
        ctx.opened_by(size, leverage_bps, entry_price_x64, liquidation_price_x64, salt) <==> {
            &&& ctx.position_commitment is Some
            &&& ctx.position_commitment->0.commitment@ == position_digest(
                size,
                leverage_bps,
                entry_price_x64,
                liquidation_price_x64,
                salt,
            )
        },
{
}

} // verus!
