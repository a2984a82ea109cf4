//! What the operations on perpetual markets and positions do, in terms of the numbers in their
//! accounts.
use vstd::prelude::*;

#[allow(unused_imports)]
use crate::amm::error::ErrorCode;
#[allow(unused_imports)]
use crate::amm::instructions::perp_market::{
    breaker_of, check_outcome, fresh_market, fresh_position, market_after_close,
    market_after_funding, market_after_open, next_funding_slot, open_error,
};
use crate::amm::instructions::perp_market::{InitPerpMarket, LiquidationCheck, PerpOpenPosition};
#[allow(unused_imports)]
use crate::amm::states::perp_market::LiquidationCheckResult;
use crate::amm::states::perp_market::PerpMarket;
use crate::keys::Pubkey;
#[allow(unused_imports)]
use crate::keys::program_address;
#[allow(unused_imports)]
use crate::pricing::lemma_bracket;

verus! {

// Liquidation checks.
/// A committed position whose revealed details match is judged by its mark price against its
/// liquidation price, as the whole numbers that they are: a long stands exactly while the mark
/// price is above, a short exactly while it is below. Of a position that does not stand a tenth of
/// the collateral remains, rounded down, and the rest counts as lost.
pub proof fn mark_price_decides_on_liquidation(
    ctx: LiquidationCheck,
    liquidation_price: u128,
    position_in_digest: int,
)
    requires
        0 <= position_in_digest < 32,
        ctx.position.commitment[position_in_digest] != 0,
        ctx.perp_market.mark_price_x64 > 0 || ctx.perp_market.status != 0,
    ensures
        ({
            let mark_price = ctx.perp_market.mark_price_x64;
            let collateral = ctx.position.collateral_amount;
            match check_outcome(ctx, true, liquidation_price) {
                Ok(LiquidationCheckResult::Healthy) => {
                    &&& ctx.position.is_long ==> mark_price > liquidation_price
                    &&& !ctx.position.is_long ==> mark_price < liquidation_price
                },
                Ok(LiquidationCheckResult::Underwater { collateral_remaining, estimated_loss }) => {
                    &&& ctx.position.is_long ==> mark_price <= liquidation_price
                    &&& !ctx.position.is_long ==> mark_price >= liquidation_price
                    &&& collateral_remaining * 10 <= collateral < collateral_remaining * 10 + 10
                    &&& collateral_remaining + estimated_loss == collateral
                },
                _ => false,
            }
        }),
{
}

/// The higher the mark price, the safer a long and the closer a short to liquidation: of two checks
/// that differ in the mark price alone, the one at the price that is better for the position finds
/// it standing where the other does.
pub proof fn better_prices_keep_positions(
    ctx: LiquidationCheck,
    better_price: u128,
    liquidation_price: u128,
)
    requires
        check_outcome(ctx, true, liquidation_price) == Ok::<LiquidationCheckResult, ErrorCode>(
            LiquidationCheckResult::Healthy,
        ),
        better_price > 0,
        ctx.position.is_long ==> better_price >= ctx.perp_market.mark_price_x64,
        !ctx.position.is_long ==> better_price <= ctx.perp_market.mark_price_x64,
    ensures
        check_outcome(
            (LiquidationCheck {
                perp_market: PerpMarket { mark_price_x64: better_price, ..ctx.perp_market },
                ..ctx
            }),
            true,
            liquidation_price,
        ) == Ok::<LiquidationCheckResult, ErrorCode>(LiquidationCheckResult::Healthy),
{
}

/// A check is refused where the details do not match, where an active market has no mark price yet,
/// and where nothing was committed to; in that order, but that details of a position without a
/// digest cannot fail to match. Every other check is made.
pub proof fn checks_are_refused_for_a_reason(
    ctx: LiquidationCheck,
    matches: bool,
    liquidation_price: u128,
)
    ensures
        ({
            let uncommitted = forall|i: int|
                0 <= i < 32 ==> #[trigger] ctx.position.commitment[i] == 0;
            let unpriced = ctx.perp_market.status == 0 && ctx.perp_market.mark_price_x64 == 0;
            match check_outcome(ctx, matches, liquidation_price) {
                Ok(_) => !uncommitted && matches && !unpriced,
                Err(ErrorCode::MarketNotFound) => unpriced && (uncommitted || matches),
                Err(ErrorCode::InvalidCommitment) => !uncommitted && !matches || uncommitted
                    && !unpriced,
                Err(_) => false,
            }
        }),
{
}

// Positions.
/// A position is opened in an active market, with at least its smallest collateral, under a digest
/// that is not all zeros, with the breaker account of the market, while no breaker of it is active.
/// The first of these that does not hold is the reason why it is not.
pub proof fn opens_are_refused_for_a_reason(
    ctx: PerpOpenPosition,
    breaker: Option<Pubkey>,
    collateral_amount: u64,
    commitment: [u8; 32],
)
    ensures
        open_error(ctx, breaker, collateral_amount, commitment) == (if ctx.perp_market.status != 0 {
            Some(ErrorCode::MarketPaused)
        } else if collateral_amount < ctx.perp_market.min_collateral {
            Some(ErrorCode::InsufficientCollateral)
        } else if forall|i: int| 0 <= i < 32 ==> #[trigger] commitment[i] == 0 {
            Some(ErrorCode::InvalidCommitment)
        } else if breaker != Some(ctx.shield_key) {
            Some(ErrorCode::ConstraintAddress)
        } else if ctx.perp_shield is Some && ctx.perp_shield->0.market != ctx.market_key {
            Some(ErrorCode::ConstraintAddress)
        } else if ctx.perp_shield is Some && ctx.perp_shield->0.circuit_breaker_active == 1 {
            Some(ErrorCode::CircuitBreakerActive)
        } else {
            None
        }),
{
}

/// The breaker account of a market stands at the address of `perp_shield` and the market.
pub proof fn breaker_stands_at_its_seeds(ctx: PerpOpenPosition)
    ensures
        ({
            let label = seq![112u8, 101, 114, 112, 95, 115, 104, 105, 101, 108, 100];
            match program_address(seq![label, ctx.market_key.bytes@], ctx.program_id.bytes@) {
                Some(found) => breaker_of(ctx) == Some(Pubkey { bytes: found.0 }),
                None => breaker_of(ctx) is None,
            }
        }),
{
    let label = seq![112u8, 101, 114, 112, 95, 115, 104, 105, 101, 108, 100];
    let seeds = crate::amm::instructions::perp_shield::breaker_seeds(ctx.market_key);
    assert(seeds[0] =~= label);
    assert(seeds =~= seq![label, ctx.market_key.bytes@]);
}

/// A new position holds its trader, its market, its digest, its collateral and its side; it was
/// opened and last updated in the slot of the open, and no funding was settled.
pub proof fn position_is_what_was_opened(
    ctx: PerpOpenPosition,
    collateral_amount: u64,
    is_long: bool,
    commitment: [u8; 32],
    slot: u64,
)
    ensures
        ({
            let position = fresh_position(ctx, collateral_amount, is_long, commitment, slot);
            &&& position.owner == ctx.owner
            &&& position.market == ctx.market_key
            &&& position.commitment == commitment
            &&& position.collateral_amount == collateral_amount
            &&& position.is_long == is_long
            &&& position.committed_at_slot == slot
            &&& position.last_updated_slot == slot
            &&& position.last_cumulative_funding_x64 == 0
            &&& position.bump == ctx.position_bump
            &&& forall|i: int| 0 <= i < 6 ==> #[trigger] position.padding[i] == 0
        }),
{
}

/// An open adds one position and its collateral to its side, and both to the lifetime counts. The
/// counts stop at the largest number that they hold. Nothing else in the market changes.
pub proof fn open_is_counted(market: PerpMarket, collateral: u64, is_long: bool)
    ensures
        ({
            let after = market_after_open(market, collateral, is_long);
            let (count, count_after, amount, amount_after) = if is_long {
                (
                    market.long_open_interest,
                    after.long_open_interest,
                    market.long_oi_notional,
                    after.long_oi_notional,
                )
            } else {
                (
                    market.short_open_interest,
                    after.short_open_interest,
                    market.short_oi_notional,
                    after.short_oi_notional,
                )
            };
            &&& count_after == (if count == u64::MAX {
                u64::MAX as int
            } else {
                count + 1
            })
            &&& amount_after == (if amount + collateral > u128::MAX {
                u128::MAX as int
            } else {
                amount + collateral
            })
            &&& after.total_trades == (if market.total_trades == u64::MAX {
                u64::MAX as int
            } else {
                market.total_trades + 1
            })
            &&& after.total_volume == (if market.total_volume + collateral > u128::MAX {
                u128::MAX as int
            } else {
                market.total_volume + collateral
            })
            &&& is_long ==> after == (PerpMarket {
                long_open_interest: after.long_open_interest,
                long_oi_notional: after.long_oi_notional,
                total_trades: after.total_trades,
                total_volume: after.total_volume,
                ..market
            })
            &&& !is_long ==> after == (PerpMarket {
                short_open_interest: after.short_open_interest,
                short_oi_notional: after.short_oi_notional,
                total_trades: after.total_trades,
                total_volume: after.total_volume,
                ..market
            })
        }),
{
}

/// A close takes one position and its collateral from its side, as far as they are there. Nothing
/// else in the market changes.
pub proof fn close_is_counted(market: PerpMarket, collateral: u64, is_long: bool)
    ensures
        ({
            let after = market_after_close(market, collateral, is_long);
            let (count, count_after, amount, amount_after) = if is_long {
                (
                    market.long_open_interest,
                    after.long_open_interest,
                    market.long_oi_notional,
                    after.long_oi_notional,
                )
            } else {
                (
                    market.short_open_interest,
                    after.short_open_interest,
                    market.short_oi_notional,
                    after.short_oi_notional,
                )
            };
            &&& count == 0 ==> count_after == 0
            &&& count > 0 ==> count_after == count - 1
            &&& amount <= collateral ==> amount_after == 0
            &&& amount > collateral ==> amount_after == amount - collateral
            &&& is_long ==> after == (PerpMarket {
                long_open_interest: after.long_open_interest,
                long_oi_notional: after.long_oi_notional,
                ..market
            })
            &&& !is_long ==> after == (PerpMarket {
                short_open_interest: after.short_open_interest,
                short_oi_notional: after.short_oi_notional,
                ..market
            })
        }),
{
}

// Markets.
/// A new market holds what it was set up with, is active, and has no price, funding, positions or
/// trades yet.
pub proof fn market_is_what_was_set_up(
    ctx: InitPerpMarket,
    market_id: u64,
    max_leverage: u16,
    liquidation_fee_bps: u16,
    taker_fee_bps: u16,
    maker_fee_bps: u16,
    min_collateral: u64,
    price_authority: Pubkey,
)
    ensures
        ({
            let market = fresh_market(
                ctx,
                market_id,
                max_leverage,
                liquidation_fee_bps,
                taker_fee_bps,
                maker_fee_bps,
                min_collateral,
                price_authority,
            );
            &&& market.market_id == market_id
            &&& market.base_mint == ctx.base_mint
            &&& market.quote_mint == ctx.quote_mint
            &&& market.collateral_vault == ctx.collateral_vault
            &&& market.insurance_fund_vault == ctx.insurance_fund_vault
            &&& market.price_authority == price_authority
            &&& market.max_leverage == max_leverage
            &&& market.liquidation_fee_bps == liquidation_fee_bps
            &&& market.taker_fee_bps == taker_fee_bps
            &&& market.maker_fee_bps == maker_fee_bps
            &&& market.min_collateral == min_collateral
            &&& market.bump == ctx.perp_market_bump
            &&& market.status == 0
            &&& market.mark_price_x64 == 0
            &&& market.index_price_x64 == 0
            &&& market.funding_rate_x64 == 0
            &&& market.cumulative_funding_x64 == 0
            &&& market.last_funding_slot == 0
            &&& market.long_open_interest == 0
            &&& market.short_open_interest == 0
            &&& market.long_oi_notional == 0
            &&& market.short_oi_notional == 0
            &&& market.insurance_fund_balance == 0
            &&& market.total_trades == 0
            &&& market.total_volume == 0
            &&& forall|i: int| 0 <= i < 6 ==> #[trigger] market.padding[i] == 0
        }),
{
}

/// The skew is by how many positions longs outnumber shorts, and the imbalance how many basis
/// points of all positions that is, on either side, rounded down. A market without positions has
/// none.
pub proof fn imbalance_is_the_skew_in_basis_points(market: PerpMarket, more: int, fewer: int)
    requires
        more >= fewer,
        (market.long_open_interest == more && market.short_open_interest == fewer) || (
        market.long_open_interest == fewer && market.short_open_interest == more),
    ensures
        market.skew() + market.short_open_interest == market.long_open_interest,
        market.open_interest() == more + fewer,
        more == 0 ==> market.imbalance() == 0,
        more > 0 ==> market.imbalance() * (more + fewer) <= (more - fewer) * 10_000 < (
        market.imbalance() + 1) * (more + fewer),
{
    if more > 0 {
        lemma_bracket((more - fewer) * 10_000, more + fewer);
    }
}

/// A funding update adds to the sum of rates what it sets as the rate: one basis point where longs
/// are alone, minus one where shorts are, else nothing. The sum stops at the ends of its range. The
/// next update is due 72 000 slots later. Nothing else in the market changes.
pub proof fn funding_is_settled_by_the_crowd(market: PerpMarket, slot: u64)
    ensures
        ({
            let after = market_after_funding(market, slot);
            let rate = if market.long_open_interest > 0 && market.short_open_interest == 0 {
                1int
            } else if market.short_open_interest > 0 && market.long_open_interest == 0 {
                -1int
            } else {
                0int
            };
            let sum = market.cumulative_funding_x64 + rate;
            &&& after.funding_rate_x64 == rate
            &&& i128::MIN <= sum <= i128::MAX ==> after.cumulative_funding_x64 == sum
            &&& sum > i128::MAX ==> after.cumulative_funding_x64 == i128::MAX
            &&& sum < i128::MIN ==> after.cumulative_funding_x64 == i128::MIN
            &&& after.last_funding_slot == slot
            &&& next_funding_slot(market) == market.last_funding_slot + 72_000
            &&& after == (PerpMarket {
                funding_rate_x64: after.funding_rate_x64,
                cumulative_funding_x64: after.cumulative_funding_x64,
                last_funding_slot: after.last_funding_slot,
                ..market
            })
        }),
{
    market.funding_follows_the_crowded_side();
}

} // verus!
