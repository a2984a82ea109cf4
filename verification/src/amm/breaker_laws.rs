//! What the circuit breaker of a perpetual market measures and decides, in terms of the numbers in
//! its account.
use vstd::prelude::*;

#[allow(unused_imports)]
use crate::amm::error::ErrorCode;
#[allow(unused_imports)]
use crate::amm::instructions::perp_shield::{
    after_auto_reset, after_measuring, alert_seeds, armed, at_decision, breaker_seeds, decision,
    fresh_shield, guard_error, guard_events, manual_alert, reset_by_authority, reset_error,
    resets_itself, trigger_error, trips,
};
use crate::amm::instructions::perp_shield::{
    InitializeShield, PerpShieldLiquidationGuard, ResetCircuitBreaker, TriggerCircuitBreaker,
};
#[allow(unused_imports)]
use crate::amm::states::perp_market::PerpMarket;
use crate::amm::states::perp_shield::PerpShield;
#[allow(unused_imports)]
use crate::amm::states::perp_shield::ShieldAction;
#[allow(unused_imports)]
use crate::commitment::le_bytes;
use crate::keys::Pubkey;

verus! {

// Metrics.
/// The velocity of a price is how far it went, in basis points of where it came from, per slot,
/// each rounded down, at most the largest number that is kept. The way counts alike up and down.
/// The new price and its slot are kept, and nothing else changes.
pub proof fn velocity_is_the_way_per_slot(shield: PerpShield, price: u128, slot: u64, way: int)
    requires
        shield.last_mark_price_x64 > 0,
        0 < shield.last_price_slot < slot,
        way >= 0,
        price == shield.last_mark_price_x64 + way || price == shield.last_mark_price_x64 - way,
    ensures
        ({
            let after = shield.price_seen(price, slot);
            let measured = if way * 10_000 > u128::MAX {
                u128::MAX as int
            } else {
                way * 10_000
            };
            let velocity = measured / shield.last_mark_price_x64 as int / (slot
                - shield.last_price_slot);
            &&& after.price_velocity_bps == (if velocity > 65_535 {
                65_535
            } else {
                velocity
            })
            &&& after.last_mark_price_x64 == price
            &&& after.last_price_slot == slot
            &&& after == (PerpShield {
                price_velocity_bps: after.price_velocity_bps,
                last_mark_price_x64: after.last_mark_price_x64,
                last_price_slot: after.last_price_slot,
                ..shield
            })
        }),
{
    let measured = if way * 10_000 > u128::MAX {
        u128::MAX as int
    } else {
        way * 10_000
    };
    let from = shield.last_mark_price_x64 as int;
    let elapsed = slot - shield.last_price_slot;
    assert(measured / from / elapsed >= 0) by (nonlinear_arith)
        requires
            measured >= 0,
            from > 0,
            elapsed > 0,
    ;
}

/// A fall is as fast as the rise by the same way in the same time.
pub proof fn falls_are_as_fast_as_rises(shield: PerpShield, slot: u64, up: u128, down: u128)
    requires
        up - shield.last_mark_price_x64 == shield.last_mark_price_x64 - down,
    ensures
        shield.price_seen(up, slot).price_velocity_bps == shield.price_seen(
            down,
            slot,
        ).price_velocity_bps,
{
}

/// The velocity tells how fast the price went, from below and from above: `v` basis points per slot
/// or more, exactly where the way is at least that share of the former price for each slot.
pub proof fn velocity_measures_the_way(
    shield: PerpShield,
    price: u128,
    slot: u64,
    way: int,
    v: int,
)
    requires
        shield.last_mark_price_x64 > 0,
        0 < shield.last_price_slot < slot,
        0 <= way * 10_000 <= u128::MAX,
        price == shield.last_mark_price_x64 + way || price == shield.last_mark_price_x64 - way,
        0 <= v <= 65_535,
    ensures
        shield.price_seen(price, slot).price_velocity_bps >= v <==> way * 10_000 >= v * (slot
            - shield.last_price_slot) * shield.last_mark_price_x64,
{
    velocity_is_the_way_per_slot(shield, price, slot, way);
    let from = shield.last_mark_price_x64 as int;
    let elapsed = slot - shield.last_price_slot;
    let moved = way * 10_000 / from;
    let velocity = moved / elapsed;
    assert(moved * from <= way * 10_000 < (moved + 1) * from) by (nonlinear_arith)
        requires
            from > 0,
            moved == way * 10_000 / from,
    ;
    assert(velocity * elapsed <= moved < (velocity + 1) * elapsed) by (nonlinear_arith)
        requires
            elapsed > 0,
            velocity == moved / elapsed,
    ;
    if velocity >= v {
        assert(v * elapsed <= moved) by (nonlinear_arith)
            requires
                v <= velocity,
                velocity * elapsed <= moved,
                elapsed > 0,
        ;
        let share = v * elapsed;
        assert(share * from <= way * 10_000) by (nonlinear_arith)
            requires
                share <= moved,
                moved * from <= way * 10_000,
                from > 0,
        ;
    } else {
        assert(moved + 1 <= v * elapsed) by (nonlinear_arith)
            requires
                velocity + 1 <= v,
                moved < (velocity + 1) * elapsed,
                elapsed > 0,
        ;
        let share = v * elapsed;
        assert(share * from > way * 10_000) by (nonlinear_arith)
            requires
                moved + 1 <= share,
                way * 10_000 < (moved + 1) * from,
                from > 0,
        ;
    }
}

/// The first price is kept with its slot, and has no velocity.
pub proof fn first_price_has_no_velocity(shield: PerpShield, price: u128, slot: u64)
    requires
        shield.last_mark_price_x64 == 0 || shield.last_price_slot == 0,
    ensures
        shield.price_seen(price, slot) == (PerpShield {
            last_mark_price_x64: price,
            last_price_slot: slot,
            price_velocity_bps: 0,
            ..shield
        }),
{
}

/// A price of the same slot, or of an earlier one, changes nothing.
pub proof fn late_price_changes_nothing(shield: PerpShield, price: u128, slot: u64)
    requires
        shield.last_mark_price_x64 > 0,
        shield.last_price_slot > 0,
        slot <= shield.last_price_slot,
    ensures
        shield.price_seen(price, slot) == shield,
{
}

/// A liquidation counts one more in its epoch, or is the first of a new one from the slot in which
/// the epoch is over. An epoch has the slots that were set up, or 1 800. Nothing else changes.
pub proof fn liquidation_counts_in_its_epoch(shield: PerpShield, slot: u64)
    ensures
        ({
            let length = if shield.epoch_slots == 0 {
                1_800int
            } else {
                shield.epoch_slots as int
            };
            let after = shield.liquidation_counted(slot);
            if slot - shield.epoch_start_slot >= length {
                after == (PerpShield {
                    epoch_start_slot: slot,
                    liquidations_this_epoch: 1,
                    ..shield
                })
            } else {
                &&& after.liquidations_this_epoch == (if shield.liquidations_this_epoch
                    == 65_535 {
                    65_535
                } else {
                    shield.liquidations_this_epoch + 1
                })
                &&& after == (PerpShield {
                    liquidations_this_epoch: after.liquidations_this_epoch,
                    ..shield
                })
            }
        }),
        ({
            let started = shield.epoch_started(slot);
            started == (PerpShield {
                epoch_start_slot: slot,
                liquidations_this_epoch: 0,
                ..shield
            })
        }),
{
}

/// The cooldown takes three epochs of what was set up, or 1 800 slots; an epoch takes what was set
/// up, or 1 800 slots.
pub proof fn cooldown_is_three_epochs(shield: PerpShield)
    ensures
        shield.epoch_slots > 0 ==> shield.cooldown() == shield.epoch_slots + shield.epoch_slots
            + shield.epoch_slots,
        shield.epoch_slots > 0 ==> shield.epoch_length() == shield.epoch_slots,
        shield.epoch_slots == 0 ==> shield.cooldown() == 1_800 && shield.epoch_length() == 1_800,
{
}

/// The limit in force: what was set up, or the default where that is zero.
pub open spec fn in_force(set_up: u16, default: int) -> int {
    if set_up == 0 {
        default
    } else {
        set_up as int
    }
}

/// A metric is elevated from its limit on: 70 percent of imbalance, 50 liquidations in an epoch, 5
/// percent of velocity per slot, unless others were set up. Any one of them suffices, and each has
/// its bit.
pub proof fn metrics_are_held_to_their_limits(shield: PerpShield, imbalance: u16)
    ensures
        ({
            let crowded = imbalance >= in_force(shield.oi_imbalance_threshold_bps, 7_000);
            let frequent = shield.liquidations_this_epoch >= in_force(
                shield.liq_rate_threshold,
                50,
            );
            let fast = shield.price_velocity_bps >= in_force(
                shield.price_velocity_threshold_bps,
                500,
            );
            let flags = shield.breaches(imbalance);
            &&& shield.imbalance_limit() == in_force(shield.oi_imbalance_threshold_bps, 7_000)
            &&& shield.liquidation_limit() == in_force(shield.liq_rate_threshold, 50)
            &&& shield.velocity_limit() == in_force(shield.price_velocity_threshold_bps, 500)
            &&& shield.elevated(imbalance) == (crowded || frequent || fast)
            &&& flags % 2 == 1 <==> crowded
            &&& flags / 2 % 2 == 1 <==> frequent
            &&& flags / 4 % 2 == 1 <==> fast
            &&& flags < 8
        }),
{
}

/// Each action has its number.
pub proof fn actions_are_numbered()
    ensures
        ShieldAction::NoAction.number() == 0,
        ShieldAction::Flagged.number() == 1,
        ShieldAction::CircuitBreakerArmed.number() == 2,
        ShieldAction::LiquidationAllowed.number() == 3,
        ShieldAction::LiquidationDeferred.number() == 4,
        ShieldAction::Reset.number() == 5,
        ShieldAction::AutoReset.number() == 6,
{
}

// Liquidations.
/// A liquidation is looked at in an active market or one in emergency, with a breaker that was set
/// up, for the authority of the breaker or the price authority of the market.
pub proof fn guards_are_refused_for_a_reason(ctx: PerpShieldLiquidationGuard)
    ensures
        guard_error(ctx) == (if !(ctx.perp_market.status == 0 || ctx.perp_market.status == 2) {
            Some(ErrorCode::MarketPaused)
        } else if ctx.perp_shield.initialized != 1 {
            Some(ErrorCode::ShieldNotInitialized)
        } else if !(ctx.liquidation_authority == ctx.perp_shield.authority
            || ctx.liquidation_authority == ctx.perp_market.price_authority) {
            Some(ErrorCode::NotApproved)
        } else {
            None
        }),
{
}

/// An active breaker is reset from the slot on in which its cooldown is over, unless a metric is
/// elevated; the slot and the action are kept, and nothing else changes. No other breaker is.
pub proof fn breaker_is_reset_once_calm(shield: PerpShield, imbalance: u16, slot: u64)
    ensures
        ({
            let cooldown = if shield.epoch_slots == 0 {
                1_800int
            } else {
                shield.epoch_slots * 3
            };
            let calm = {
                &&& imbalance < in_force(shield.oi_imbalance_threshold_bps, 7_000)
                &&& shield.liquidations_this_epoch < in_force(shield.liq_rate_threshold, 50)
                &&& shield.price_velocity_bps < in_force(shield.price_velocity_threshold_bps, 500)
            };
            let due = shield.circuit_breaker_active == 1 && slot - shield.triggered_at_slot
                >= cooldown && calm;
            &&& resets_itself(shield, imbalance, slot) == due
            &&& due ==> after_auto_reset(shield, imbalance, slot) == (PerpShield {
                circuit_breaker_active: 0,
                reset_at_slot: slot,
                last_action: 6,
                ..shield
            })
            &&& !due ==> after_auto_reset(shield, imbalance, slot) == shield
        }),
{
}

/// At a liquidation the breaker keeps the imbalance of the market, sees its mark price and counts
/// the liquidation, whether or not it resets itself before.
pub proof fn liquidation_is_measured(ctx: PerpShieldLiquidationGuard, slot: u64)
    ensures
        ({
            let shield = ctx.perp_shield;
            let imbalance = ctx.perp_market.imbalance() as u16;
            let after = after_measuring(ctx, slot);
            let started = after_auto_reset(shield, imbalance, slot);
            let seen = shield.price_seen(ctx.perp_market.mark_price_x64, slot);
            let counted = shield.liquidation_counted(slot);
            &&& after.last_oi_imbalance_bps == ctx.perp_market.imbalance()
            &&& after.last_mark_price_x64 == seen.last_mark_price_x64
            &&& after.last_price_slot == seen.last_price_slot
            &&& after.price_velocity_bps == seen.price_velocity_bps
            &&& after.liquidations_this_epoch == counted.liquidations_this_epoch
            &&& after.epoch_start_slot == counted.epoch_start_slot
            &&& after == (PerpShield {
                last_oi_imbalance_bps: after.last_oi_imbalance_bps,
                last_mark_price_x64: after.last_mark_price_x64,
                last_price_slot: after.last_price_slot,
                price_velocity_bps: after.price_velocity_bps,
                liquidations_this_epoch: after.liquidations_this_epoch,
                epoch_start_slot: after.epoch_start_slot,
                ..started
            })
        }),
{
    ctx.perp_market.imbalance_spans_balance_to_one_side();
}

/// An armed breaker is active from its slot on, with one more arming counted. Nothing else changes.
pub proof fn arming_is_counted(shield: PerpShield, slot: u64)
    ensures
        ({
            let after = armed(shield, slot);
            &&& after.circuit_breaker_active == 1
            &&& after.triggered_at_slot == slot
            &&& after.trigger_count == (if shield.trigger_count == u64::MAX {
                u64::MAX as int
            } else {
                shield.trigger_count + 1
            })
            &&& after.last_action == 2
            &&& after == (PerpShield {
                circuit_breaker_active: after.circuit_breaker_active,
                triggered_at_slot: after.triggered_at_slot,
                trigger_count: after.trigger_count,
                last_action: after.last_action,
                ..shield
            })
        }),
{
}

/// A liquidation arms a breaker that is not active where a metric that it measured is elevated. It
/// waits while the breaker is active, unless it is forced.
pub proof fn liquidation_is_decided_by_the_metrics(
    ctx: PerpShieldLiquidationGuard,
    force: bool,
    slot: u64,
)
    ensures
        ({
            let measured = after_measuring(ctx, slot);
            let elevated = {
                ||| measured.last_oi_imbalance_bps >= in_force(
                    ctx.perp_shield.oi_imbalance_threshold_bps,
                    7_000,
                )
                ||| measured.liquidations_this_epoch >= in_force(
                    ctx.perp_shield.liq_rate_threshold,
                    50,
                )
                ||| measured.price_velocity_bps >= in_force(
                    ctx.perp_shield.price_velocity_threshold_bps,
                    500,
                )
            };
            &&& trips(ctx, slot) == (measured.circuit_breaker_active != 1 && elevated)
            &&& trips(ctx, slot) ==> at_decision(ctx, slot) == armed(measured, slot)
            &&& !trips(ctx, slot) ==> at_decision(ctx, slot) == measured
            &&& decision(ctx, force, slot) == (if !force && (measured.circuit_breaker_active == 1
                || elevated) {
                ShieldAction::LiquidationDeferred
            } else {
                ShieldAction::LiquidationAllowed
            })
        }),
{
}

/// A crash arms the breaker where a rally does: of two liquidations whose mark prices lie as far
/// below and above the last one, both or neither arm it, and both or neither go ahead.
pub proof fn crash_arms_like_a_rally(
    ctx: PerpShieldLiquidationGuard,
    up: u128,
    down: u128,
    force: bool,
    slot: u64,
)
    requires
        up - ctx.perp_shield.last_mark_price_x64 == ctx.perp_shield.last_mark_price_x64 - down,
    ensures
        ({
            let rally = PerpShieldLiquidationGuard {
                perp_market: PerpMarket { mark_price_x64: up, ..ctx.perp_market },
                ..ctx
            };
            let crash = PerpShieldLiquidationGuard {
                perp_market: PerpMarket { mark_price_x64: down, ..ctx.perp_market },
                ..ctx
            };
            &&& trips(rally, slot) == trips(crash, slot)
            &&& decision(rally, force, slot) == decision(crash, force, slot)
            &&& after_measuring(rally, slot).price_velocity_bps == after_measuring(
                crash,
                slot,
            ).price_velocity_bps
        }),
{
    falls_are_as_fast_as_rises(ctx.perp_shield, slot, up, down);
}

/// What is published about a liquidation: a reset where the breaker reset itself, an arming with
/// its record where it was armed, and always what was decided.
pub proof fn events_tell_the_liquidation(ctx: PerpShieldLiquidationGuard, force: bool, slot: u64)
    ensures
        ({
            let events = guard_events(ctx, force, slot);
            let imbalance = ctx.perp_market.imbalance() as u16;
            let measured = after_measuring(ctx, slot);
            let count = if measured.trigger_count == u64::MAX {
                u64::MAX as int
            } else {
                measured.trigger_count + 1
            };
            &&& events.reset is Some <==> resets_itself(ctx.perp_shield, imbalance, slot)
            &&& events.reset matches Some(reset) ==> {
                &&& reset.market == ctx.market_key
                &&& reset.shield == ctx.shield_key
                &&& reset.trigger_count == ctx.perp_shield.trigger_count
                &&& !reset.by_authority
                &&& reset.slot == slot
            }
            &&& events.triggered is Some <==> trips(ctx, slot)
            &&& events.triggered matches Some(triggered) ==> {
                &&& triggered.market == ctx.market_key
                &&& triggered.shield == ctx.shield_key
                &&& triggered.trigger_count == count
                &&& triggered.oi_imbalance_bps == ctx.perp_market.imbalance()
                &&& triggered.liquidations_in_epoch == measured.liquidations_this_epoch
                &&& triggered.price_velocity_bps == measured.price_velocity_bps
                &&& triggered.trigger_flags == measured.breaches(imbalance)
                &&& triggered.slot == slot
            }
            &&& events.alert is Some <==> trips(ctx, slot)
            &&& events.alert matches Some(alert) ==> {
                &&& alert.shield == ctx.shield_key
                &&& alert.market == ctx.market_key
                &&& alert.alert_index == count
                &&& alert.triggered_at_slot == slot
                &&& alert.reset_at_slot == 0
                &&& alert.oi_imbalance_bps == ctx.perp_market.imbalance()
                &&& alert.liquidations_in_epoch == measured.liquidations_this_epoch
                &&& alert.price_velocity_bps == measured.price_velocity_bps
                &&& alert.trigger_flags == measured.breaches(imbalance)
                &&& alert.resolution == 0
                &&& alert.bump == ctx.cascade_alert_bump
                &&& forall|i: int| 0 <= i < 5 ==> #[trigger] alert.padding[i] == 0
            }
            &&& events.guard matches Some(guard) && {
                &&& guard.market == ctx.market_key
                &&& guard.owner == ctx.liquidation_authority
                &&& guard.action == (if decision(ctx, force, slot)
                    == ShieldAction::LiquidationDeferred {
                    4int
                } else {
                    3int
                })
                &&& guard.oi_imbalance_bps == ctx.perp_market.imbalance()
                &&& guard.liquidations_in_epoch == measured.liquidations_this_epoch
                &&& guard.slot == slot
            }
        }),
{
    ctx.perp_market.imbalance_spans_balance_to_one_side();
}

// The authority.
/// The authority of a breaker arms it under the number of the next arming. The first of these that
/// does not hold is the reason why it is not armed.
pub proof fn armings_are_refused_for_a_reason(ctx: TriggerCircuitBreaker, alert_index: u64)
    ensures
        ({
            let next = if ctx.perp_shield.trigger_count == u64::MAX {
                u64::MAX as int
            } else {
                ctx.perp_shield.trigger_count + 1
            };
            trigger_error(ctx, alert_index) == (if ctx.authority != ctx.perp_shield.authority {
                Some(ErrorCode::NotApproved)
            } else if ctx.perp_shield.initialized != 1 {
                Some(ErrorCode::ShieldNotInitialized)
            } else if alert_index != next {
                Some(ErrorCode::NotApproved)
            } else {
                None
            })
        }),
{
}

/// The record of an arming by the authority carries its number and slot, the reasons that were
/// given, and the metrics as they are.
pub proof fn record_tells_the_arming(ctx: TriggerCircuitBreaker, reason_flags: u8, slot: u64)
    ensures
        ({
            let alert = manual_alert(ctx, reason_flags, slot);
            &&& alert.shield == ctx.shield_key
            &&& alert.market == ctx.market_key
            &&& alert.alert_index == (if ctx.perp_shield.trigger_count == u64::MAX {
                u64::MAX as int
            } else {
                ctx.perp_shield.trigger_count + 1
            })
            &&& alert.triggered_at_slot == slot
            &&& alert.reset_at_slot == 0
            &&& alert.oi_imbalance_bps == ctx.perp_market.imbalance()
            &&& alert.liquidations_in_epoch == ctx.perp_shield.liquidations_this_epoch
            &&& alert.price_velocity_bps == ctx.perp_shield.price_velocity_bps
            &&& alert.trigger_flags == reason_flags
            &&& alert.resolution == 0
            &&& alert.bump == ctx.cascade_alert_bump
            &&& forall|i: int| 0 <= i < 5 ==> #[trigger] alert.padding[i] == 0
        }),
{
    ctx.perp_market.imbalance_spans_balance_to_one_side();
}

/// The authority of a breaker resets it once its cooldown is over, or earlier by force; a breaker
/// that is not active can always be left as it is.
pub proof fn resets_are_refused_for_a_reason(ctx: ResetCircuitBreaker, force: bool, slot: u64)
    ensures
        ({
            let shield = ctx.perp_shield;
            let cooldown = if shield.epoch_slots == 0 {
                1_800int
            } else {
                shield.epoch_slots * 3
            };
            reset_error(ctx, force, slot) == (if ctx.authority != shield.authority {
                Some(ErrorCode::NotApproved)
            } else if shield.initialized != 1 {
                Some(ErrorCode::ShieldNotInitialized)
            } else if shield.circuit_breaker_active == 1 && slot - shield.triggered_at_slot
                < cooldown && !force {
                Some(ErrorCode::CircuitBreakerActive)
            } else {
                None
            })
        }),
{
}

/// A reset by the authority leaves a breaker that is not active, with a new epoch from its slot on.
/// Nothing else changes.
pub proof fn reset_is_recorded(shield: PerpShield, slot: u64)
    ensures
        reset_by_authority(shield, slot) == (PerpShield {
            circuit_breaker_active: 0,
            reset_at_slot: slot,
            last_action: 5,
            epoch_start_slot: slot,
            liquidations_this_epoch: 0,
            ..shield
        }),
{
}

/// A new breaker holds its market, its authority and the limits that it was set up with; its epochs
/// have 1 800 slots where none were given, the first one starts now, and nothing was measured yet.
pub proof fn breaker_is_what_was_set_up(
    ctx: InitializeShield,
    epoch_slots: u64,
    oi_imbalance_threshold_bps: u16,
    liq_rate_threshold: u16,
    price_velocity_threshold_bps: u16,
    slot: u64,
)
    ensures
        ({
            let shield = fresh_shield(
                ctx,
                epoch_slots,
                oi_imbalance_threshold_bps,
                liq_rate_threshold,
                price_velocity_threshold_bps,
                slot,
            );
            &&& shield.market == ctx.perp_market
            &&& shield.authority == ctx.authority
            &&& epoch_slots > 0 ==> shield.epoch_slots == epoch_slots
            &&& epoch_slots == 0 ==> shield.epoch_slots == 1_800
            &&& shield.oi_imbalance_threshold_bps == oi_imbalance_threshold_bps
            &&& shield.liq_rate_threshold == liq_rate_threshold
            &&& shield.price_velocity_threshold_bps == price_velocity_threshold_bps
            &&& shield.bump == ctx.perp_shield_bump
            &&& shield.initialized == 1
            &&& shield.epoch_start_slot == slot
            &&& shield.circuit_breaker_active == 0
            &&& shield.triggered_at_slot == 0
            &&& shield.reset_at_slot == 0
            &&& shield.trigger_count == 0
            &&& shield.last_action == 0
            &&& shield.last_oi_imbalance_bps == 0
            &&& shield.liquidations_this_epoch == 0
            &&& shield.last_mark_price_x64 == 0
            &&& shield.last_price_slot == 0
            &&& shield.price_velocity_bps == 0
            &&& forall|i: int| 0 <= i < 4 ==> #[trigger] shield.padding[i] == 0
        }),
{
}

/// The addresses of a breaker and of an alert have the labels `perp_shield` and `cascade_alert`;
/// the market follows the first, the breaker and the number of the arming the second.
pub proof fn addresses_have_their_seeds(market: Pubkey, shield: Pubkey, index: u64)
    ensures
        breaker_seeds(market).len() == 2,
        breaker_seeds(market)[0] == seq![112u8, 101, 114, 112, 95, 115, 104, 105, 101, 108, 100],
        breaker_seeds(market)[1] == market.bytes@,
        alert_seeds(shield, index).len() == 3,
        alert_seeds(shield, index)[0] == seq![
            99u8,
            97,
            115,
            99,
            97,
            100,
            101,
            95,
            97,
            108,
            101,
            114,
            116,
        ],
        alert_seeds(shield, index)[1] == shield.bytes@,
        alert_seeds(shield, index)[2] == le_bytes(index as nat, 8),
{
    assert(breaker_seeds(market)[0] =~= seq![
        112u8,
        101,
        114,
        112,
        95,
        115,
        104,
        105,
        101,
        108,
        100,
    ]);
    assert(alert_seeds(shield, index)[0] =~= seq![
        99u8,
        97,
        115,
        99,
        97,
        100,
        101,
        95,
        97,
        108,
        101,
        114,
        116,
    ]);
}

} // verus!
