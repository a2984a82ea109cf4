//! What holds of perpetual markets and their breakers beyond single instructions.
use vstd::prelude::*;

#[allow(unused_imports)]
use crate::amm::error::ErrorCode;
#[allow(unused_imports)]
use crate::amm::instructions::perp_market::{
    breaker_of, check_outcome, fresh_market, fresh_position, is_crossed, liquidated,
    market_after_close, market_after_funding, market_after_open, next_funding_slot, open_error,
};
use crate::amm::instructions::perp_market::{InitPerpMarket, LiquidationCheck, PerpOpenPosition};
#[allow(unused_imports)]
use crate::amm::instructions::perp_shield::{
    after_auto_reset, after_measuring, armed, at_decision, decision, fresh_shield, guard_error,
    guard_events, reset_by_authority, reset_error, resets_itself, trips,
};
use crate::amm::instructions::perp_shield::{
    InitializeShield, PerpShieldLiquidationGuard, ResetCircuitBreaker,
};
#[allow(unused_imports)]
use crate::amm::states::perp_market::{LiquidationCheckResult, FUNDING_EPOCH_SLOTS};
use crate::amm::states::perp_market::PerpMarket;
use crate::amm::states::perp_shield::PerpShield;
#[allow(unused_imports)]
use crate::amm::states::perp_shield::ShieldAction;
#[allow(unused_imports)]
use crate::commitment::{is_zero_digest, position_digest};
use crate::keys::Pubkey;

verus! {

// Markets.
/// What the set-up of a market checks and nothing afterwards changes.
pub open spec fn valid_market(market: PerpMarket) -> bool {
    &&& 1 <= market.max_leverage <= 100
    &&& market.liquidation_fee_bps <= 500
    &&& market.min_collateral > 0
}

/// A market that passes the checks of its set-up starts valid, active and without positions.
pub proof fn fresh_market_is_valid(
    ctx: InitPerpMarket,
    market_id: u64,
    max_leverage: u16,
    liquidation_fee_bps: u16,
    taker_fee_bps: u16,
    maker_fee_bps: u16,
    min_collateral: u64,
    price_authority: Pubkey,
)
    requires
        1 <= max_leverage <= 100,
        liquidation_fee_bps <= 500,
        min_collateral > 0,
    ensures
        ({
            let market = fresh_market(
                ctx,
                market_id,
                max_leverage,
                liquidation_fee_bps,
                taker_fee_bps,
                maker_fee_bps,
                min_collateral,
                price_authority,
            );
            valid_market(market) && market.status == 0 && market.open_interest() == 0
        }),
{
}

/// Opening, closing, pricing and funding keep a market valid.
pub proof fn operations_keep_market_valid(
    market: PerpMarket,
    collateral: u64,
    is_long: bool,
    slot: u64,
    mark_price_x64: u128,
    index_price_x64: u128,
)
    requires
        valid_market(market),
    ensures
        valid_market(market_after_open(market, collateral, is_long)),
        valid_market(market_after_close(market, collateral, is_long)),
        valid_market(market_after_funding(market, slot)),
        valid_market(PerpMarket { mark_price_x64, index_price_x64, ..market }),
{
}

/// Closing a position takes back what opening it did to the open interest, and leaves the lifetime
/// counts, as long as the open interest had room for it.
pub proof fn closing_undoes_opening(market: PerpMarket, collateral: u64, is_long: bool)
    requires
        is_long ==> market.long_open_interest < u64::MAX && market.long_oi_notional + collateral
            <= u128::MAX,
        !is_long ==> market.short_open_interest < u64::MAX && market.short_oi_notional + collateral
            <= u128::MAX,
    ensures
        ({
            let opened = market_after_open(market, collateral, is_long);
            market_after_close(opened, collateral, is_long) == (PerpMarket {
                total_trades: opened.total_trades,
                total_volume: opened.total_volume,
                ..market
            })
        }),
{
}

/// A position counts on its own side only.
pub proof fn position_counts_on_its_side(market: PerpMarket, collateral: u64, is_long: bool)
    ensures
        ({
            let opened = market_after_open(market, collateral, is_long);
            let closed = market_after_close(market, collateral, is_long);
            if is_long {
                &&& opened.short_open_interest == market.short_open_interest
                &&& opened.short_oi_notional == market.short_oi_notional
                &&& closed.short_open_interest == market.short_open_interest
                &&& closed.short_oi_notional == market.short_oi_notional
            } else {
                &&& opened.long_open_interest == market.long_open_interest
                &&& opened.long_oi_notional == market.long_oi_notional
                &&& closed.long_open_interest == market.long_open_interest
                &&& closed.long_oi_notional == market.long_oi_notional
            }
        }),
{
}

/// Funding updates are an epoch apart.
pub proof fn funding_updates_are_an_epoch_apart(market: PerpMarket, slot: u64)
    ensures
        next_funding_slot(market_after_funding(market, slot)) == slot + FUNDING_EPOCH_SLOTS,
{
}

/// Liquidation splits the collateral of a position into what remains and what counts as lost.
pub proof fn liquidation_splits_collateral(collateral: u64)
    ensures
        liquidated(collateral) matches LiquidationCheckResult::Underwater {
            collateral_remaining,
            estimated_loss,
        } && collateral_remaining + estimated_loss == collateral && collateral_remaining * 10
            <= collateral,
{
}

/// A position that can be liquidated at a price can be liquidated at every worse one.
pub proof fn worse_prices_liquidate_too(is_long: bool, price: int, worse: int, limit: int)
    requires
        is_crossed(is_long, price, limit),
        is_long ==> worse <= price,
        !is_long ==> worse >= price,
    ensures
        is_crossed(is_long, worse, limit),
{
}

/// While the breaker of a market is active no position opens in it: an open that goes through came
/// with the breaker account of its market, and that held no active breaker.
pub proof fn active_breaker_pauses_opens(
    ctx: PerpOpenPosition,
    breaker: Option<Pubkey>,
    collateral_amount: u64,
    commitment: [u8; 32],
)
    requires
        open_error(ctx, breaker, collateral_amount, commitment) is None,
    ensures
        breaker == Some(ctx.shield_key),
        ctx.perp_shield matches Some(shield) ==> shield.market == ctx.market_key
            && !shield.active(),
{
}

/// A market whose breaker was never set up is open to every position that meets its own conditions.
pub proof fn market_without_breaker_is_not_paused(
    ctx: PerpOpenPosition,
    breaker: Option<Pubkey>,
    collateral_amount: u64,
    commitment: [u8; 32],
)
    requires
        ctx.perp_shield is None,
        breaker == Some(ctx.shield_key),
    ensures
        open_error(ctx, breaker, collateral_amount, commitment) is None <==> {
            &&& ctx.perp_market.status == 0
            &&& collateral_amount >= ctx.perp_market.min_collateral
            &&& !is_zero_digest(commitment)
        },
{
}

/// A reveal that does not match the digest of a position is never judged, at no price.
pub proof fn other_details_liquidate_nothing(ctx: LiquidationCheck, liquidation_price: u128)
    ensures
        !is_zero_digest(ctx.position.commitment) ==> check_outcome(ctx, false, liquidation_price)
            == Err::<LiquidationCheckResult, ErrorCode>(ErrorCode::InvalidCommitment),
        check_outcome(ctx, false, liquidation_price) is Err,
{
}

/// The details that a position was opened with are judged by the mark price.
pub proof fn own_details_are_judged_by_the_mark_price(
    open: PerpOpenPosition,
    collateral_amount: u64,
    is_long: bool,
    commitment: [u8; 32],
    slot: u64,
    check: LiquidationCheck,
    size: u64,
    leverage_bps: u16,
    entry_price_x64: u128,
    liquidation_price_x64: u128,
    salt: [u8; 16],
)
    requires
        open_error(open, breaker_of(open), collateral_amount, commitment) is None,
        commitment@ == position_digest(
            size,
            leverage_bps,
            entry_price_x64,
            liquidation_price_x64,
            salt,
        ),
        check.position == fresh_position(open, collateral_amount, is_long, commitment, slot),
        check.perp_market.mark_price_x64 > 0,
    ensures
        check_outcome(
            check,
            position_digest(size, leverage_bps, entry_price_x64, liquidation_price_x64, salt)
                == check.position.commitment@,
            liquidation_price_x64,
        ) == Ok::<LiquidationCheckResult, ErrorCode>(
            if is_crossed(
                is_long,
                check.perp_market.mark_price_x64 as int,
                liquidation_price_x64 as int,
            ) {
                liquidated(collateral_amount)
            } else {
                LiquidationCheckResult::Healthy
            },
        ),
{
}

// Breakers.
/// The flags of a breaker that was set up are 0 or 1.
pub open spec fn well_formed(shield: PerpShield) -> bool {
    &&& shield.circuit_breaker_active <= 1
    &&& shield.initialized == 1
}

/// Two breakers agree on all that the set-up fixes.
pub open spec fn same_settings(a: PerpShield, b: PerpShield) -> bool {
    &&& a.market == b.market
    &&& a.authority == b.authority
    &&& a.epoch_slots == b.epoch_slots
    &&& a.oi_imbalance_threshold_bps == b.oi_imbalance_threshold_bps
    &&& a.liq_rate_threshold == b.liq_rate_threshold
    &&& a.price_velocity_threshold_bps == b.price_velocity_threshold_bps
    &&& a.bump == b.bump
}

/// A breaker starts well-formed and inactive.
pub proof fn fresh_breaker_is_inactive(
    ctx: InitializeShield,
    epoch_slots: u64,
    oi_imbalance_threshold_bps: u16,
    liq_rate_threshold: u16,
    price_velocity_threshold_bps: u16,
    slot: u64,
)
    ensures
        ({
            let shield = fresh_shield(
                ctx,
                epoch_slots,
                oi_imbalance_threshold_bps,
                liq_rate_threshold,
                price_velocity_threshold_bps,
                slot,
            );
            well_formed(shield) && !shield.active() && shield.epoch_slots > 0
        }),
{
}

/// Guarding liquidations, arming and resetting keep a breaker well-formed and its settings, and
/// never count an arming less.
pub proof fn operations_keep_breaker_well_formed(
    ctx: PerpShieldLiquidationGuard,
    slot: u64,
)
    requires
        well_formed(ctx.perp_shield),
    ensures
        forall|after: PerpShield|
            #![trigger well_formed(after)]
            after == at_decision(ctx, slot) || after == armed(ctx.perp_shield, slot) || after
                == reset_by_authority(ctx.perp_shield, slot) ==> {
                &&& well_formed(after)
                &&& same_settings(ctx.perp_shield, after)
                &&& after.trigger_count >= ctx.perp_shield.trigger_count
            },
{
}

/// A threshold that is reached arms the breaker, so that the liquidation waits unless it is forced.
pub proof fn breach_arms_breaker(ctx: PerpShieldLiquidationGuard, slot: u64)
    requires
        well_formed(ctx.perp_shield),
        after_measuring(ctx, slot).elevated(ctx.perp_market.imbalance() as u16),
    ensures
        at_decision(ctx, slot).active(),
        decision(ctx, false, slot) == ShieldAction::LiquidationDeferred,
        decision(ctx, true, slot) == ShieldAction::LiquidationAllowed,
        trips(ctx, slot) ==> at_decision(ctx, slot).triggered_at_slot == slot,
{
}

/// An arming by a liquidation, and nothing else, leaves a record. It carries the number of the
/// arming, the slot, and at least one metric that reached its threshold.
pub proof fn arming_leaves_a_record(ctx: PerpShieldLiquidationGuard, force: bool, slot: u64)
    ensures
        match guard_events(ctx, force, slot).alert {
            Some(alert) => {
                &&& trips(ctx, slot)
                &&& alert.shield == ctx.shield_key
                &&& alert.market == ctx.market_key
                &&& alert.alert_index == at_decision(ctx, slot).trigger_count
                &&& alert.triggered_at_slot == at_decision(ctx, slot).triggered_at_slot == slot
                &&& alert.reset_at_slot == 0
                &&& alert.trigger_flags != 0
                &&& guard_events(ctx, force, slot).triggered matches Some(event)
                    && event.trigger_count == alert.alert_index && event.trigger_flags
                    == alert.trigger_flags
            },
            None => !trips(ctx, slot) && at_decision(ctx, slot) == after_measuring(ctx, slot),
        },
{
}

/// With an inactive breaker and no threshold reached a liquidation goes ahead, and the breaker
/// stays inactive.
pub proof fn calm_market_lets_liquidations_through(
    ctx: PerpShieldLiquidationGuard,
    force: bool,
    slot: u64,
)
    requires
        !ctx.perp_shield.active(),
        !after_measuring(ctx, slot).elevated(ctx.perp_market.imbalance() as u16),
    ensures
        !at_decision(ctx, slot).active(),
        decision(ctx, force, slot) == ShieldAction::LiquidationAllowed,
{
}

/// Through its cooldown an armed breaker neither resets itself nor lets itself be reset without
/// force, and defers every liquidation that is not forced.
pub proof fn armed_breaker_holds_through_cooldown(
    ctx: PerpShieldLiquidationGuard,
    reset: ResetCircuitBreaker,
    before: PerpShield,
    armed_at: u64,
    slot: u64,
)
    requires
        ctx.perp_shield == armed(before, armed_at),
        reset.perp_shield == ctx.perp_shield,
        slot < armed_at + before.cooldown(),
    ensures
        !resets_itself(ctx.perp_shield, ctx.perp_market.imbalance() as u16, slot),
        at_decision(ctx, slot).active(),
        decision(ctx, false, slot) == ShieldAction::LiquidationDeferred,
        reset_error(reset, false, slot) is Some,
{
}

/// After its cooldown, and with no metric elevated, a breaker resets itself at the next
/// liquidation.
pub proof fn breaker_resets_itself_when_calm(shield: PerpShield, imbalance: u16, slot: u64)
    requires
        shield.active(),
        slot >= shield.triggered_at_slot + shield.cooldown(),
        !shield.elevated(imbalance),
    ensures
        !after_auto_reset(shield, imbalance, slot).active(),
        after_auto_reset(shield, imbalance, slot).reset_at_slot == slot,
{
}

/// A breaker never resets itself while a metric is elevated.
pub proof fn breaker_holds_while_elevated(shield: PerpShield, imbalance: u16, slot: u64)
    requires
        shield.elevated(imbalance),
    ensures
        after_auto_reset(shield, imbalance, slot) == shield,
{
}

/// A reset by the authority disarms the breaker and starts counting liquidations anew.
pub proof fn reset_starts_over(shield: PerpShield, slot: u64)
    ensures
        ({
            let after = reset_by_authority(shield, slot);
            &&& !after.active()
            &&& after.liquidations_this_epoch == 0
            &&& after.epoch_start_slot == slot
            &&& after.reset_at_slot == slot
            &&& after.trigger_count == shield.trigger_count
        }),
{
}

/// Only the authority of the breaker and the price authority of the market have a liquidation
/// looked at.
pub proof fn strangers_cannot_liquidate(ctx: PerpShieldLiquidationGuard)
    requires
        ctx.liquidation_authority != ctx.perp_shield.authority,
        ctx.liquidation_authority != ctx.perp_market.price_authority,
    ensures
        guard_error(ctx) is Some,
{
}

} // verus!
