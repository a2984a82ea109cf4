//! Instructions on perpetual markets and positions.
use vstd::prelude::*;

use crate::amm::error::ErrorCode;
use crate::amm::instructions::perp_shield::breaker_address;
#[allow(unused_imports)]
use crate::amm::instructions::perp_shield::breaker_seeds;
use crate::amm::states::perp_market::{
    FundingRateUpdatedEvent, LiquidationCheckResult, MarkPriceUpdatedEvent, PerpMarket,
    PositionClosedEvent, PositionCommitment, PositionOpenedEvent, FUNDING_EPOCH_SLOTS,
};
use crate::amm::states::perp_shield::PerpShield;
use crate::arith::add_saturating_i128;
#[allow(unused_imports)]
use crate::arith::{clamp_i128, min_of};
use crate::commitment::{digest_of_position, has_only_zeros};
#[allow(unused_imports)]
use crate::commitment::{is_zero_digest, position_digest};
#[allow(unused_imports)]
use crate::keys::program_address;
use crate::keys::{same_bytes, Pubkey};

verus! {

/// Accounts of [`handler_init_market`].
#[derive(Clone, Copy, Debug)]
pub struct InitPerpMarket {
    pub admin: Pubkey,
    pub base_mint: Pubkey,
    pub quote_mint: Pubkey,
    pub collateral_vault: Pubkey,
    pub insurance_fund_vault: Pubkey,
    /// Bump seed of the new market account
    pub perp_market_bump: u8,
}

/// Accounts of [`handler_open_position`].
#[derive(Clone, Copy, Debug)]
pub struct PerpOpenPosition {
    pub owner: Pubkey,
    pub market_key: Pubkey,
    pub perp_market: PerpMarket,
    /// Program that the accounts belong to
    pub program_id: Pubkey,
    /// Address of the account that `perp_shield` was read from
    pub shield_key: Pubkey,
    /// Breaker of the market; none where the account holds none, as none was set up
    pub perp_shield: Option<PerpShield>,
    /// Bump seed of the new position account
    pub position_bump: u8,
}

/// Accounts of [`handler_close_position`].
#[derive(Clone, Copy, Debug)]
pub struct PerpClosePosition {
    pub owner: Pubkey,
    pub market_key: Pubkey,
    pub perp_market: PerpMarket,
    pub position: PositionCommitment,
}

/// Accounts of [`handler_update_mark_price`].
#[derive(Clone, Copy, Debug)]
pub struct UpdateMarkPrice {
    pub price_authority: Pubkey,
    pub market_key: Pubkey,
    pub perp_market: PerpMarket,
}

/// Accounts of [`handler_update_funding_rate`].
#[derive(Clone, Copy, Debug)]
pub struct UpdateFundingRate {
    pub caller: Pubkey,
    pub market_key: Pubkey,
    pub perp_market: PerpMarket,
}

/// Accounts of [`handler_liquidation_check`].
#[derive(Clone, Copy, Debug)]
pub struct LiquidationCheck {
    pub liquidator: Pubkey,
    pub perp_market: PerpMarket,
    pub position: PositionCommitment,
    pub position_owner: Pubkey,
}

/// A market as it is set up.
pub open spec fn fresh_market(
    ctx: InitPerpMarket,
    market_id: u64,
    max_leverage: u16,
    liquidation_fee_bps: u16,
    taker_fee_bps: u16,
    maker_fee_bps: u16,
    min_collateral: u64,
    price_authority: Pubkey,
) -> PerpMarket {
    PerpMarket {
        market_id,
        base_mint: ctx.base_mint,
        quote_mint: ctx.quote_mint,
        collateral_vault: ctx.collateral_vault,
        insurance_fund_vault: ctx.insurance_fund_vault,
        price_authority,
        mark_price_x64: 0,
        index_price_x64: 0,
        funding_rate_x64: 0,
        last_funding_slot: 0,
        cumulative_funding_x64: 0,
        long_open_interest: 0,
        short_open_interest: 0,
        long_oi_notional: 0,
        short_oi_notional: 0,
        insurance_fund_balance: 0,
        max_leverage,
        liquidation_fee_bps,
        taker_fee_bps,
        maker_fee_bps,
        min_collateral,
        total_trades: 0,
        total_volume: 0,
        status: 0,
        bump: ctx.perp_market_bump,
        padding: [0, 0, 0, 0, 0, 0],
    }
}

/// Sets up a market.
pub fn handler_init_market(
    ctx: &InitPerpMarket,
    market_id: u64,
    max_leverage: u16,
    liquidation_fee_bps: u16,
    taker_fee_bps: u16,
    maker_fee_bps: u16,
    min_collateral: u64,
    price_authority: Pubkey,
) -> (outcome: Result<PerpMarket, ErrorCode>)
    ensures
        outcome == (if max_leverage == 0 || max_leverage > 100 {
            Err(ErrorCode::MaxLeverageExceeded)
        } else if liquidation_fee_bps > 500 {
            Err(ErrorCode::InvalidTreasury)
        } else if min_collateral == 0 {
            Err(ErrorCode::InsufficientCollateral)
        } else {
            Ok(
                fresh_market(
                    *ctx,
                    market_id,
                    max_leverage,
                    liquidation_fee_bps,
                    taker_fee_bps,
                    maker_fee_bps,
                    min_collateral,
                    price_authority,
                ),
            )
        }),
{
    if max_leverage == 0 || max_leverage > 100 {
        return Err(ErrorCode::MaxLeverageExceeded);
    }
    if liquidation_fee_bps > 500 {
        return Err(ErrorCode::InvalidTreasury);
    }
    if min_collateral == 0 {
        return Err(ErrorCode::InsufficientCollateral);
    }
    Ok(
        PerpMarket {
            market_id,
            base_mint: ctx.base_mint,
            quote_mint: ctx.quote_mint,
            collateral_vault: ctx.collateral_vault,
            insurance_fund_vault: ctx.insurance_fund_vault,
            price_authority,
            mark_price_x64: 0,
            index_price_x64: 0,
            funding_rate_x64: 0,
            last_funding_slot: 0,
            cumulative_funding_x64: 0,
            long_open_interest: 0,
            short_open_interest: 0,
            long_oi_notional: 0,
            short_oi_notional: 0,
            insurance_fund_balance: 0,
            max_leverage,
            liquidation_fee_bps,
            taker_fee_bps,
            maker_fee_bps,
            min_collateral,
            total_trades: 0,
            total_volume: 0,
            status: 0,
            bump: ctx.perp_market_bump,
            padding: [0, 0, 0, 0, 0, 0],
        },
    )
}

/// Whether the account that came with an open is the breaker account of the market, where that
/// stands at `breaker`, and does not hold the breaker of another market.
pub open spec fn has_breaker_account(ctx: PerpOpenPosition, breaker: Option<Pubkey>) -> bool {
    &&& breaker == Some(ctx.shield_key)
    &&& ctx.perp_shield matches Some(shield) ==> shield.market == ctx.market_key
}

/// Why a position cannot be opened, where the breaker account of the market stands at `breaker`. A
/// market without a breaker is not paused by one.
pub open spec fn open_error(
    ctx: PerpOpenPosition,
    breaker: Option<Pubkey>,
    collateral_amount: u64,
    commitment: [u8; 32],
) -> Option<ErrorCode> {
    if ctx.perp_market.status != 0 {
        Some(ErrorCode::MarketPaused)
    } else if collateral_amount < ctx.perp_market.min_collateral {
        Some(ErrorCode::InsufficientCollateral)
    } else if is_zero_digest(commitment) {
        Some(ErrorCode::InvalidCommitment)
    } else if !has_breaker_account(ctx, breaker) {
        Some(ErrorCode::ConstraintAddress)
    } else if ctx.perp_shield is Some && ctx.perp_shield->0.active() {
        Some(ErrorCode::CircuitBreakerActive)
    } else {
        None
    }
}

/// The market after a position was opened.
pub open spec fn market_after_open(
    market: PerpMarket,
    collateral: u64,
    is_long: bool,
) -> PerpMarket {
    PerpMarket {
        long_open_interest: if is_long {
            market.long_open_interest.saturating_add(1)
        } else {
            market.long_open_interest
        },
        long_oi_notional: if is_long {
            market.long_oi_notional.saturating_add(collateral as u128)
        } else {
            market.long_oi_notional
        },
        short_open_interest: if is_long {
            market.short_open_interest
        } else {
            market.short_open_interest.saturating_add(1)
        },
        short_oi_notional: if is_long {
            market.short_oi_notional
        } else {
            market.short_oi_notional.saturating_add(collateral as u128)
        },
        total_trades: market.total_trades.saturating_add(1),
        total_volume: market.total_volume.saturating_add(collateral as u128),
        ..market
    }
}

/// The market after a position was closed.
pub open spec fn market_after_close(
    market: PerpMarket,
    collateral: u64,
    is_long: bool,
) -> PerpMarket {
    PerpMarket {
        long_open_interest: if is_long {
            market.long_open_interest.saturating_sub(1)
        } else {
            market.long_open_interest
        },
        long_oi_notional: if is_long {
            market.long_oi_notional.saturating_sub(collateral as u128)
        } else {
            market.long_oi_notional
        },
        short_open_interest: if is_long {
            market.short_open_interest
        } else {
            market.short_open_interest.saturating_sub(1)
        },
        short_oi_notional: if is_long {
            market.short_oi_notional
        } else {
            market.short_oi_notional.saturating_sub(collateral as u128)
        },
        ..market
    }
}

/// A position as it is opened.
pub open spec fn fresh_position(
    ctx: PerpOpenPosition,
    collateral_amount: u64,
    is_long: bool,
    commitment: [u8; 32],
    slot: u64,
) -> PositionCommitment {
    PositionCommitment {
        owner: ctx.owner,
        market: ctx.market_key,
        commitment,
        collateral_amount,
        is_long,
        committed_at_slot: slot,
        last_updated_slot: slot,
        last_cumulative_funding_x64: 0,
        bump: ctx.position_bump,
        padding: [0, 0, 0, 0, 0, 0],
    }
}

/// Address at which the breaker account of the market of an open stands.
pub open spec fn breaker_of(ctx: PerpOpenPosition) -> Option<Pubkey> {
    match program_address(breaker_seeds(ctx.market_key), ctx.program_id.bytes@) {
        Some((address, _)) => Some(Pubkey { bytes: address }),
        None => None,
    }
}

/// Opens a position in a market whose breaker account stands at `breaker`.
pub fn open_position_at(
    ctx: &mut PerpOpenPosition,
    breaker: &Option<Pubkey>,
    collateral_amount: u64,
    is_long: bool,
    commitment: [u8; 32],
    slot: u64,
) -> (outcome: Result<(PositionCommitment, PositionOpenedEvent), ErrorCode>)
    ensures
        outcome == (match open_error(*old(ctx), *breaker, collateral_amount, commitment) {
            Some(error) => Err(error),
            None => Ok(
                (
                    fresh_position(*old(ctx), collateral_amount, is_long, commitment, slot),
                    PositionOpenedEvent {
                        market: old(ctx).market_key,
                        owner: old(ctx).owner,
                        is_long,
                        collateral_amount,
                        commitment,
                        slot,
                    },
                ),
            ),
        }),
        *final(ctx) == (if outcome is Ok {
            PerpOpenPosition {
                perp_market: market_after_open(old(ctx).perp_market, collateral_amount, is_long),
                ..*old(ctx)
            }
        } else {
            *old(ctx)
        }),
{
    if !ctx.perp_market.is_active() {
        return Err(ErrorCode::MarketPaused);
    }
    if collateral_amount < ctx.perp_market.min_collateral {
        return Err(ErrorCode::InsufficientCollateral);
    }
    if has_only_zeros(&commitment) {
        return Err(ErrorCode::InvalidCommitment);
    }
    match breaker {
        Some(address) => if *address != ctx.shield_key {
            return Err(ErrorCode::ConstraintAddress);
        },
        None => {
            return Err(ErrorCode::ConstraintAddress);
        },
    }
    if let Some(shield) = ctx.perp_shield {
        if shield.market != ctx.market_key {
            return Err(ErrorCode::ConstraintAddress);
        }
        if shield.is_breaker_active() {
            return Err(ErrorCode::CircuitBreakerActive);
        }
    }
    let market = &mut ctx.perp_market;
    if is_long {
        market.long_open_interest = market.long_open_interest.saturating_add(1);
        market.long_oi_notional = market.long_oi_notional.saturating_add(collateral_amount as u128);
    } else {
        market.short_open_interest = market.short_open_interest.saturating_add(1);
        market.short_oi_notional =
        market.short_oi_notional.saturating_add(collateral_amount as u128);
    }
    market.total_trades = market.total_trades.saturating_add(1);
    market.total_volume = market.total_volume.saturating_add(collateral_amount as u128);
    Ok(
        (
            PositionCommitment {
                owner: ctx.owner,
                market: ctx.market_key,
                commitment,
                collateral_amount,
                is_long,
                committed_at_slot: slot,
                last_updated_slot: slot,
                last_cumulative_funding_x64: 0,
                bump: ctx.position_bump,
                padding: [0, 0, 0, 0, 0, 0],
            },
            PositionOpenedEvent {
                market: ctx.market_key,
                owner: ctx.owner,
                is_long,
                collateral_amount,
                commitment,
                slot,
            },
        ),
    )
}

/// Opens a position under the digest of its private details. It comes with the breaker account of
/// the market, so that an active breaker pauses every open. The host moves `collateral_amount` from
/// the trader to the collateral vault.
pub fn handler_open_position(
    ctx: &mut PerpOpenPosition,
    collateral_amount: u64,
    is_long: bool,
    commitment: [u8; 32],
    slot: u64,
) -> (outcome: Result<(PositionCommitment, PositionOpenedEvent), ErrorCode>)
    ensures
        outcome == (match open_error(
            *old(ctx),
            breaker_of(*old(ctx)),
            collateral_amount,
            commitment,
        ) {
            Some(error) => Err(error),
            None => Ok(
                (
                    fresh_position(*old(ctx), collateral_amount, is_long, commitment, slot),
                    PositionOpenedEvent {
                        market: old(ctx).market_key,
                        owner: old(ctx).owner,
                        is_long,
                        collateral_amount,
                        commitment,
                        slot,
                    },
                ),
            ),
        }),
        *final(ctx) == (if outcome is Ok {
            PerpOpenPosition {
                perp_market: market_after_open(old(ctx).perp_market, collateral_amount, is_long),
                ..*old(ctx)
            }
        } else {
            *old(ctx)
        }),
{
    let breaker = match breaker_address(&ctx.market_key, &ctx.program_id) {
        Some((address, _bump)) => Some(address),
        None => None,
    };
    open_position_at(ctx, &breaker, collateral_amount, is_long, commitment, slot)
}

/// Closes a position. The host moves `collateral_returned`, where it is not zero, from the
/// collateral vault to the trader.
pub fn handler_close_position(
    ctx: &mut PerpClosePosition,
    collateral_to_return: u64,
    slot: u64,
) -> (outcome: Result<PositionClosedEvent, ErrorCode>)
    ensures
        outcome == (if old(ctx).position.owner == old(ctx).owner {
            Ok(
                PositionClosedEvent {
                    market: old(ctx).market_key,
                    owner: old(ctx).owner,
                    is_long: old(ctx).position.is_long,
                    collateral_returned: min_of(
                        collateral_to_return as int,
                        old(ctx).position.collateral_amount as int,
                    ) as u64,
                    slot,
                },
            )
        } else {
            Err(ErrorCode::NotSender)
        }),
        outcome matches Ok(event) ==> event.collateral_returned
            <= old(ctx).position.collateral_amount,
        *final(ctx) == (if outcome is Ok {
            PerpClosePosition {
                perp_market: market_after_close(
                    old(ctx).perp_market,
                    old(ctx).position.collateral_amount,
                    old(ctx).position.is_long,
                ),
                ..*old(ctx)
            }
        } else {
            *old(ctx)
        }),
{
    if ctx.position.owner != ctx.owner {
        return Err(ErrorCode::NotSender);
    }
    let is_long = ctx.position.is_long;
    let collateral_amount: u64 = ctx.position.collateral_amount;
    let collateral_returned: u64 = if collateral_to_return < collateral_amount {
        collateral_to_return
    } else {
        collateral_amount
    };
    let market = &mut ctx.perp_market;
    if is_long {
        market.long_open_interest = market.long_open_interest.saturating_sub(1);
        market.long_oi_notional = market.long_oi_notional.saturating_sub(collateral_amount as u128);
    } else {
        market.short_open_interest = market.short_open_interest.saturating_sub(1);
        market.short_oi_notional =
        market.short_oi_notional.saturating_sub(collateral_amount as u128);
    }
    Ok(
        PositionClosedEvent {
            market: ctx.market_key,
            owner: ctx.owner,
            is_long,
            collateral_returned,
            slot,
        },
    )
}

/// Sets the mark price and the index price.
pub fn handler_update_mark_price(
    ctx: &mut UpdateMarkPrice,
    mark_price_x64: u128,
    index_price_x64: u128,
    slot: u64,
) -> (outcome: Result<MarkPriceUpdatedEvent, ErrorCode>)
    ensures
        outcome == (if old(ctx).perp_market.price_authority != old(ctx).price_authority {
            Err(ErrorCode::NotSender)
        } else if mark_price_x64 == 0 {
            Err(ErrorCode::ZeroSqrtPrice)
        } else {
            Ok(
                MarkPriceUpdatedEvent {
                    market: old(ctx).market_key,
                    mark_price_x64,
                    index_price_x64,
                    slot,
                },
            )
        }),
        *final(ctx) == (if outcome is Ok {
            UpdateMarkPrice {
                perp_market: PerpMarket { mark_price_x64, index_price_x64, ..old(ctx).perp_market },
                ..*old(ctx)
            }
        } else {
            *old(ctx)
        }),
{
    if ctx.perp_market.price_authority != ctx.price_authority {
        return Err(ErrorCode::NotSender);
    }
    if mark_price_x64 == 0 {
        return Err(ErrorCode::ZeroSqrtPrice);
    }
    ctx.perp_market.mark_price_x64 = mark_price_x64;
    ctx.perp_market.index_price_x64 = index_price_x64;
    Ok(
        MarkPriceUpdatedEvent {
            market: ctx.market_key,
            mark_price_x64,
            index_price_x64,
            slot,
        },
    )
}

/// The first slot in which the funding rate can be updated again.
pub open spec fn next_funding_slot(market: PerpMarket) -> int {
    market.last_funding_slot + FUNDING_EPOCH_SLOTS
}

/// The market after its funding rate was updated at `slot`.
pub open spec fn market_after_funding(market: PerpMarket, slot: u64) -> PerpMarket {
    PerpMarket {
        funding_rate_x64: market.due_funding_rate() as i128,
        cumulative_funding_x64: clamp_i128(
            market.cumulative_funding_x64 + market.due_funding_rate(),
        ) as i128,
        last_funding_slot: slot,
        ..market
    }
}

/// Updates the funding rate, at most once per epoch.
pub fn handler_update_funding_rate(ctx: &mut UpdateFundingRate, slot: u64) -> (outcome: Result<
    FundingRateUpdatedEvent,
    ErrorCode,
>)
    requires
        next_funding_slot(old(ctx).perp_market) <= u64::MAX,
        slot >= next_funding_slot(old(ctx).perp_market) ==> old(ctx).perp_market.open_interest()
            <= u64::MAX,
    ensures
        outcome == (if slot < next_funding_slot(old(ctx).perp_market) {
            Err(ErrorCode::FundingRateStale)
        } else {
            Ok(
                FundingRateUpdatedEvent {
                    market: old(ctx).market_key,
                    funding_rate_x64: old(ctx).perp_market.due_funding_rate() as i128,
                    long_oi: old(ctx).perp_market.long_open_interest,
                    short_oi: old(ctx).perp_market.short_open_interest,
                    slot,
                },
            )
        }),
        *final(ctx) == (if outcome is Ok {
            UpdateFundingRate {
                perp_market: market_after_funding(old(ctx).perp_market, slot),
                ..*old(ctx)
            }
        } else {
            *old(ctx)
        }),
{
    if slot < ctx.perp_market.last_funding_slot + FUNDING_EPOCH_SLOTS {
        return Err(ErrorCode::FundingRateStale);
    }
    let new_rate: i128 = ctx.perp_market.calculate_funding_rate();
    ctx.perp_market.funding_rate_x64 = new_rate;
    ctx.perp_market.cumulative_funding_x64 =
    add_saturating_i128(ctx.perp_market.cumulative_funding_x64, new_rate);
    ctx.perp_market.last_funding_slot = slot;
    Ok(
        FundingRateUpdatedEvent {
            market: ctx.market_key,
            funding_rate_x64: new_rate,
            long_oi: ctx.perp_market.long_open_interest,
            short_oi: ctx.perp_market.short_open_interest,
            slot,
        },
    )
}

/// Whether the mark price has reached the liquidation price from the losing side.
pub open spec fn is_crossed(is_long: bool, price: int, liquidation_price: int) -> bool {
    if is_long {
        price <= liquidation_price
    } else {
        price >= liquidation_price
    }
}

/// Outcome for a position that can be liquidated: nine tenths of its collateral count as lost.
pub open spec fn liquidated(collateral: u64) -> LiquidationCheckResult {
    LiquidationCheckResult::Underwater {
        collateral_remaining: collateral / 10,
        estimated_loss: (collateral - collateral / 10) as u64,
    }
}

/// What a liquidation check comes to, where the revealed details `matches` the digest of the
/// position or do not. A reveal that does not match is never judged.
pub open spec fn check_outcome(
    ctx: LiquidationCheck,
    matches: bool,
    liquidation_price: u128,
) -> Result<LiquidationCheckResult, ErrorCode> {
    if !is_zero_digest(ctx.position.commitment) && !matches {
        Err(ErrorCode::InvalidCommitment)
    } else if ctx.perp_market.status == 0 && ctx.perp_market.mark_price_x64 == 0 {
        Err(ErrorCode::MarketNotFound)
    } else if is_zero_digest(ctx.position.commitment) {
        Err(ErrorCode::InvalidCommitment)
    } else if is_crossed(
        ctx.position.is_long,
        ctx.perp_market.mark_price_x64 as int,
        liquidation_price as int,
    ) {
        Ok(liquidated(ctx.position.collateral_amount))
    } else {
        Ok(LiquidationCheckResult::Healthy)
    }
}

/// Checks whether a position can be liquidated, where its revealed details match its digest, or do
/// not.
pub fn check_liquidation(
    ctx: &LiquidationCheck,
    matches: bool,
    liquidation_price_x64: u128,
) -> (outcome: Result<LiquidationCheckResult, ErrorCode>)
    ensures
        outcome == check_outcome(*ctx, matches, liquidation_price_x64),
{
    let uncommitted = has_only_zeros(&ctx.position.commitment);
    if !uncommitted && !matches {
        return Err(ErrorCode::InvalidCommitment);
    }
    if ctx.perp_market.is_active() && ctx.perp_market.mark_price_x64 == 0 {
        return Err(ErrorCode::MarketNotFound);
    }
    if uncommitted {
        return Err(ErrorCode::InvalidCommitment);
    }
    let mark_price: u128 = ctx.perp_market.mark_price_x64;
    let is_liquidatable = if ctx.position.is_long {
        mark_price <= liquidation_price_x64
    } else {
        mark_price >= liquidation_price_x64
    };
    if !is_liquidatable {
        return Ok(LiquidationCheckResult::Healthy);
    }
    let collateral_amount: u64 = ctx.position.collateral_amount;
    let collateral_remaining: u64 = collateral_amount / 10;
    Ok(
        LiquidationCheckResult::Underwater {
            collateral_remaining,
            estimated_loss: collateral_amount - collateral_remaining,
        },
    )
}

/// Verifies revealed details against the digest of a position, and checks whether it can be
/// liquidated at its revealed liquidation price.
pub fn handler_liquidation_check(
    ctx: &LiquidationCheck,
    revealed_size: u64,
    revealed_leverage_bps: u16,
    revealed_entry_price_x64: u128,
    revealed_liquidation_price_x64: u128,
    revealed_salt: [u8; 16],
) -> (outcome: Result<LiquidationCheckResult, ErrorCode>)
    ensures
        outcome == check_outcome(
            *ctx,
            position_digest(
                revealed_size,
                revealed_leverage_bps,
                revealed_entry_price_x64,
                revealed_liquidation_price_x64,
                revealed_salt,
            ) == ctx.position.commitment@,
            revealed_liquidation_price_x64,
        ),
{
    let digest = digest_of_position(
        revealed_size,
        revealed_leverage_bps,
        revealed_entry_price_x64,
        revealed_liquidation_price_x64,
        &revealed_salt,
    );
    let matches = same_bytes(&digest, &ctx.position.commitment);
    check_liquidation(ctx, matches, revealed_liquidation_price_x64)
}

} // verus!
