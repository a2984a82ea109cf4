//! Instructions on the circuit breaker of a perpetual market.
use vstd::prelude::*;

use crate::amm::error::ErrorCode;
use crate::amm::states::perp_market::PerpMarket;
use crate::amm::states::perp_shield::{
    CascadeAlert, CircuitBreakerResetEvent, CircuitBreakerTriggeredEvent, LiquidationGuardEvent,
    PerpShield, PerpShieldInitializedEvent, ShieldAction, CASCADE_ALERT_SEED, DEFAULT_EPOCH_SLOTS,
    PERP_SHIELD_SEED,
};
#[allow(unused_imports)]
use crate::commitment::le_bytes;
use crate::commitment::push_le_bytes;
#[allow(unused_imports)]
use crate::keys::{program_address, seed_bytes};
use crate::keys::{find_program_address, Pubkey};

verus! {

/// Seeds of the address of a breaker: its label and the address of the market.
pub open spec fn breaker_seeds(market: Pubkey) -> Seq<Seq<u8>> {
    seq![PERP_SHIELD_SEED@, market.bytes@]
}

/// Seeds of the address of an alert: its label, the address of the breaker and the number of the
/// arming in eight bytes, lowest first.
pub open spec fn alert_seeds(shield: Pubkey, index: u64) -> Seq<Seq<u8>> {
    seq![CASCADE_ALERT_SEED@, shield.bytes@, le_bytes(index as nat, 8)]
}

/// Finds the address of the breaker of a market, and its bump seed.
pub fn breaker_address(market: &Pubkey, program_id: &Pubkey) -> (found: Option<(Pubkey, u8)>)
    ensures
        match found {
            Some((address, bump)) => program_address(breaker_seeds(*market), program_id.bytes@)
                == Some((address.bytes, bump)),
            None => program_address(breaker_seeds(*market), program_id.bytes@) is None,
        },
{
    let label = PERP_SHIELD_SEED;
    let seeds: [&[u8]; 2] = [label.as_slice(), market.bytes.as_slice()];
    assert(seed_bytes(seeds@) =~= breaker_seeds(*market));
    find_program_address(seeds.as_slice(), program_id)
}

/// Finds the address of the alert with the number `index`, and its bump seed.
pub fn alert_address(shield: &Pubkey, index: u64, program_id: &Pubkey) -> (found: Option<
    (Pubkey, u8),
>)
    ensures
        match found {
            Some((address, bump)) => program_address(alert_seeds(*shield, index), program_id.bytes@)
                == Some((address.bytes, bump)),
            None => program_address(alert_seeds(*shield, index), program_id.bytes@) is None,
        },
{
    let label = CASCADE_ALERT_SEED;
    let mut number: Vec<u8> = Vec::new();
    push_le_bytes(&mut number, index as u128, 8);
    assert(number@ =~= le_bytes(index as nat, 8));
    let seeds: [&[u8]; 3] = [label.as_slice(), shield.bytes.as_slice(), number.as_slice()];
    assert(seed_bytes(seeds@) =~= alert_seeds(*shield, index));
    find_program_address(seeds.as_slice(), program_id)
}

/// Accounts of [`initialize_shield`].
#[derive(Clone, Copy, Debug)]
pub struct InitializeShield {
    pub authority: Pubkey,
    pub perp_market: Pubkey,
    /// Address of the new breaker account
    pub perp_shield: Pubkey,
    /// Bump seed of that address
    pub perp_shield_bump: u8,
}

/// Accounts of [`perp_shield_liquidation_guard`].
#[derive(Clone, Copy, Debug)]
pub struct PerpShieldLiquidationGuard {
    pub liquidation_authority: Pubkey,
    pub market_key: Pubkey,
    pub perp_market: PerpMarket,
    pub shield_key: Pubkey,
    pub perp_shield: PerpShield,
    /// Bump seed of the alert account that an arming creates
    pub cascade_alert_bump: u8,
}

/// Accounts of [`trigger_circuit_breaker`].
#[derive(Clone, Copy, Debug)]
pub struct TriggerCircuitBreaker {
    pub authority: Pubkey,
    pub market_key: Pubkey,
    pub perp_market: PerpMarket,
    pub shield_key: Pubkey,
    pub perp_shield: PerpShield,
    /// Bump seed of the new alert account
    pub cascade_alert_bump: u8,
}

/// Accounts of [`reset_circuit_breaker`].
#[derive(Clone, Copy, Debug)]
pub struct ResetCircuitBreaker {
    pub authority: Pubkey,
    pub market_key: Pubkey,
    pub shield_key: Pubkey,
    pub perp_shield: PerpShield,
}

/// What the guard of a liquidation published, and the record of an arming.
#[derive(Clone, Copy, Debug)]
pub struct GuardEvents {
    pub reset: Option<CircuitBreakerResetEvent>,
    pub triggered: Option<CircuitBreakerTriggeredEvent>,
    pub guard: Option<LiquidationGuardEvent>,
    pub alert: Option<CascadeAlert>,
}

/// A breaker as it is set up.
pub open spec fn fresh_shield(
    ctx: InitializeShield,
    epoch_slots: u64,
    oi_imbalance_threshold_bps: u16,
    liq_rate_threshold: u16,
    price_velocity_threshold_bps: u16,
    slot: u64,
) -> PerpShield {
    PerpShield {
        market: ctx.perp_market,
        authority: ctx.authority,
        circuit_breaker_active: 0,
        triggered_at_slot: 0,
        reset_at_slot: 0,
        trigger_count: 0,
        last_action: ShieldAction::NoAction.number(),
        last_oi_imbalance_bps: 0,
        liquidations_this_epoch: 0,
        epoch_start_slot: slot,
        epoch_slots: if epoch_slots > 0 {
            epoch_slots
        } else {
            DEFAULT_EPOCH_SLOTS
        },
        last_mark_price_x64: 0,
        last_price_slot: 0,
        price_velocity_bps: 0,
        oi_imbalance_threshold_bps,
        liq_rate_threshold,
        price_velocity_threshold_bps,
        initialized: 1,
        bump: ctx.perp_shield_bump,
        padding: [0, 0, 0, 0],
    }
}

/// Sets up the breaker of a market.
pub fn initialize_shield(
    ctx: &InitializeShield,
    epoch_slots: u64,
    oi_imbalance_threshold_bps: u16,
    liq_rate_threshold: u16,
    price_velocity_threshold_bps: u16,
    slot: u64,
) -> (outcome: (PerpShield, PerpShieldInitializedEvent))
    ensures
        outcome.0 == fresh_shield(
            *ctx,
            epoch_slots,
            oi_imbalance_threshold_bps,
            liq_rate_threshold,
            price_velocity_threshold_bps,
            slot,
        ),
        outcome.1 == (PerpShieldInitializedEvent {
            market: ctx.perp_market,
            shield: ctx.perp_shield,
            authority: ctx.authority,
            slot,
        }),
{
    let shield = PerpShield {
        market: ctx.perp_market,
        authority: ctx.authority,
        circuit_breaker_active: 0,
        triggered_at_slot: 0,
        reset_at_slot: 0,
        trigger_count: 0,
        last_action: ShieldAction::NoAction.code(),
        last_oi_imbalance_bps: 0,
        liquidations_this_epoch: 0,
        epoch_start_slot: slot,
        epoch_slots: if epoch_slots > 0 {
            epoch_slots
        } else {
            DEFAULT_EPOCH_SLOTS
        },
        last_mark_price_x64: 0,
        last_price_slot: 0,
        price_velocity_bps: 0,
        oi_imbalance_threshold_bps,
        liq_rate_threshold,
        price_velocity_threshold_bps,
        initialized: 1,
        bump: ctx.perp_shield_bump,
        padding: [0, 0, 0, 0],
    };
    let event = PerpShieldInitializedEvent {
        market: ctx.perp_market,
        shield: ctx.perp_shield,
        authority: ctx.authority,
        slot,
    };
    (shield, event)
}

/// Why a liquidation is not even looked at.
pub open spec fn guard_error(ctx: PerpShieldLiquidationGuard) -> Option<ErrorCode> {
    if ctx.perp_market.status != 0 && ctx.perp_market.status != 2 {
        Some(ErrorCode::MarketPaused)
    } else if ctx.perp_shield.initialized != 1 {
        Some(ErrorCode::ShieldNotInitialized)
    } else if ctx.liquidation_authority != ctx.perp_shield.authority && ctx.liquidation_authority
        != ctx.perp_market.price_authority {
        Some(ErrorCode::NotApproved)
    } else {
        None
    }
}

/// Whether the breaker resets itself at `slot`: its cooldown is over and no metric is elevated.
pub open spec fn resets_itself(shield: PerpShield, imbalance: u16, slot: u64) -> bool {
    &&& shield.active()
    &&& slot >= shield.triggered_at_slot + shield.cooldown()
    &&& !shield.elevated(imbalance)
}

/// The breaker after it had the chance to reset itself.
pub open spec fn after_auto_reset(shield: PerpShield, imbalance: u16, slot: u64) -> PerpShield {
    if resets_itself(shield, imbalance, slot) {
        PerpShield {
            circuit_breaker_active: 0,
            reset_at_slot: slot,
            last_action: ShieldAction::AutoReset.number(),
            ..shield
        }
    } else {
        shield
    }
}

/// The breaker after a liquidation and the state of its market were measured.
pub open spec fn after_metrics(
    shield: PerpShield,
    imbalance: u16,
    mark_price: u128,
    slot: u64,
) -> PerpShield {
    (PerpShield { last_oi_imbalance_bps: imbalance, ..shield }).price_seen(
        mark_price,
        slot,
    ).liquidation_counted(slot)
}

/// The breaker armed at `slot`.
pub open spec fn armed(shield: PerpShield, slot: u64) -> PerpShield {
    PerpShield {
        circuit_breaker_active: 1,
        triggered_at_slot: slot,
        trigger_count: shield.trigger_count.saturating_add(1),
        last_action: ShieldAction::CircuitBreakerArmed.number(),
        ..shield
    }
}

/// The breaker after a liquidation was measured, before it is decided on.
pub open spec fn after_measuring(ctx: PerpShieldLiquidationGuard, slot: u64) -> PerpShield {
    let imbalance = ctx.perp_market.imbalance() as u16;
    after_metrics(
        after_auto_reset(ctx.perp_shield, imbalance, slot),
        imbalance,
        ctx.perp_market.mark_price_x64,
        slot,
    )
}

/// Whether a liquidation arms the breaker.
pub open spec fn trips(ctx: PerpShieldLiquidationGuard, slot: u64) -> bool {
    !after_measuring(ctx, slot).active() && after_measuring(ctx, slot).elevated(
        ctx.perp_market.imbalance() as u16,
    )
}

/// The breaker when a liquidation is decided on.
pub open spec fn at_decision(ctx: PerpShieldLiquidationGuard, slot: u64) -> PerpShield {
    if trips(ctx, slot) {
        armed(after_measuring(ctx, slot), slot)
    } else {
        after_measuring(ctx, slot)
    }
}

/// What is decided on a liquidation.
pub open spec fn decision(ctx: PerpShieldLiquidationGuard, force: bool, slot: u64) -> ShieldAction {
    if at_decision(ctx, slot).active() && !force {
        ShieldAction::LiquidationDeferred
    } else {
        ShieldAction::LiquidationAllowed
    }
}

/// The record of an arming by a liquidation.
pub open spec fn automatic_alert(ctx: PerpShieldLiquidationGuard, slot: u64) -> CascadeAlert {
    let imbalance = ctx.perp_market.imbalance() as u16;
    let measured = after_measuring(ctx, slot);
    CascadeAlert {
        shield: ctx.shield_key,
        market: ctx.market_key,
        alert_index: measured.trigger_count.saturating_add(1),
        triggered_at_slot: slot,
        reset_at_slot: 0,
        oi_imbalance_bps: imbalance,
        liquidations_in_epoch: measured.liquidations_this_epoch,
        price_velocity_bps: measured.price_velocity_bps,
        trigger_flags: measured.breaches(imbalance),
        resolution: 0,
        bump: ctx.cascade_alert_bump,
        padding: [0, 0, 0, 0, 0],
    }
}

/// What is published about a liquidation.
pub open spec fn guard_events(
    ctx: PerpShieldLiquidationGuard,
    force: bool,
    slot: u64,
) -> GuardEvents {
    let imbalance = ctx.perp_market.imbalance() as u16;
    let measured = after_measuring(ctx, slot);
    GuardEvents {
        reset: if resets_itself(ctx.perp_shield, imbalance, slot) {
            Some(
                CircuitBreakerResetEvent {
                    market: ctx.market_key,
                    shield: ctx.shield_key,
                    trigger_count: ctx.perp_shield.trigger_count,
                    by_authority: false,
                    slot,
                },
            )
        } else {
            None
        },
        triggered: if trips(ctx, slot) {
            Some(
                CircuitBreakerTriggeredEvent {
                    market: ctx.market_key,
                    shield: ctx.shield_key,
                    trigger_count: measured.trigger_count.saturating_add(1),
                    oi_imbalance_bps: imbalance,
                    liquidations_in_epoch: measured.liquidations_this_epoch,
                    price_velocity_bps: measured.price_velocity_bps,
                    trigger_flags: measured.breaches(imbalance),
                    slot,
                },
            )
        } else {
            None
        },
        guard: Some(
            LiquidationGuardEvent {
                market: ctx.market_key,
                owner: ctx.liquidation_authority,
                action: decision(ctx, force, slot).number(),
                oi_imbalance_bps: imbalance,
                liquidations_in_epoch: measured.liquidations_this_epoch,
                slot,
            },
        ),
        alert: if trips(ctx, slot) {
            Some(automatic_alert(ctx, slot))
        } else {
            None
        },
    }
}

/// Decides whether a liquidation may go ahead: not while the breaker is active, unless forced. The
/// metrics are updated either way, and arm the breaker where one of them has reached its threshold.
/// Each arming leaves a record, which the host stores in an account of its own.
pub fn perp_shield_liquidation_guard(
    ctx: &mut PerpShieldLiquidationGuard,
    force_liquidate: bool,
    current_slot: u64,
) -> (outcome: (Result<ShieldAction, ErrorCode>, GuardEvents))
    requires
        old(ctx).perp_market.status == 0 || old(ctx).perp_market.status == 2 ==> old(
            ctx,
        ).perp_market.open_interest() <= u64::MAX,
        guard_error(*old(ctx)) is None ==> {
            &&& old(ctx).perp_shield.active() ==> old(ctx).perp_shield.triggered_at_slot + old(
                ctx,
            ).perp_shield.cooldown() <= u64::MAX
            &&& old(ctx).perp_shield.epoch_start_slot + old(ctx).perp_shield.epoch_length()
                <= u64::MAX
        },
    ensures
        match guard_error(*old(ctx)) {
            Some(error) => {
                &&& outcome.0 == Err::<ShieldAction, ErrorCode>(error)
                &&& outcome.1 == (GuardEvents {
                    reset: None,
                    triggered: None,
                    guard: None,
                    alert: None,
                })
                &&& *final(ctx) == *old(ctx)
            },
            None => {
                &&& outcome.0 == (match decision(*old(ctx), force_liquidate, current_slot) {
                    ShieldAction::LiquidationDeferred => Err::<ShieldAction, ErrorCode>(
                        ErrorCode::CircuitBreakerActive,
                    ),
                    action => Ok(action),
                })
                &&& outcome.1 == guard_events(*old(ctx), force_liquidate, current_slot)
                &&& *final(ctx) == (PerpShieldLiquidationGuard {
                    perp_shield: PerpShield {
                        last_action: decision(
                            *old(ctx),
                            force_liquidate,
                            current_slot,
                        ).number(),
                        ..at_decision(*old(ctx), current_slot)
                    },
                    ..*old(ctx)
                })
            },
        },
{
    let mut events = GuardEvents { reset: None, triggered: None, guard: None, alert: None };
    if !ctx.perp_market.is_active() && !ctx.perp_market.is_emergency() {
        return (Err(ErrorCode::MarketPaused), events);
    }
    let imbalance: u16 = ctx.perp_market.oi_imbalance_bps();
    let mut shield = ctx.perp_shield;
    if shield.initialized != 1 {
        return (Err(ErrorCode::ShieldNotInitialized), events);
    }
    let caller = ctx.liquidation_authority;
    if caller != shield.authority && caller != ctx.perp_market.price_authority {
        return (Err(ErrorCode::NotApproved), events);
    }
    if shield.is_breaker_active() && shield.cooldown_elapsed(current_slot) {
        if !shield.should_trip(imbalance) {
            shield.circuit_breaker_active = 0;
            shield.reset_at_slot = current_slot;
            shield.last_action = ShieldAction::AutoReset.code();
            events.reset =
            Some(
                CircuitBreakerResetEvent {
                    market: ctx.market_key,
                    shield: ctx.shield_key,
                    trigger_count: shield.trigger_count,
                    by_authority: false,
                    slot: current_slot,
                },
            );
        }
    }
    shield.last_oi_imbalance_bps = imbalance;
    shield.update_price_velocity(ctx.perp_market.mark_price_x64, current_slot);
    shield.record_liquidation(current_slot);
    assert(shield == after_measuring(*old(ctx), current_slot));
    if !shield.is_breaker_active() && shield.should_trip(imbalance) {
        let flags: u8 = shield.breach_flags(imbalance);
        shield.circuit_breaker_active = 1;
        shield.triggered_at_slot = current_slot;
        shield.trigger_count = shield.trigger_count.saturating_add(1);
        shield.last_action = ShieldAction::CircuitBreakerArmed.code();
        events.triggered =
        Some(
            CircuitBreakerTriggeredEvent {
                market: ctx.market_key,
                shield: ctx.shield_key,
                trigger_count: shield.trigger_count,
                oi_imbalance_bps: imbalance,
                liquidations_in_epoch: shield.liquidations_this_epoch,
                price_velocity_bps: shield.price_velocity_bps,
                trigger_flags: flags,
                slot: current_slot,
            },
        );
        events.alert =
        Some(
            CascadeAlert {
                shield: ctx.shield_key,
                market: ctx.market_key,
                alert_index: shield.trigger_count,
                triggered_at_slot: current_slot,
                reset_at_slot: 0,
                oi_imbalance_bps: imbalance,
                liquidations_in_epoch: shield.liquidations_this_epoch,
                price_velocity_bps: shield.price_velocity_bps,
                trigger_flags: flags,
                resolution: 0,
                bump: ctx.cascade_alert_bump,
                padding: [0, 0, 0, 0, 0],
            },
        );
    }
    let deferred = shield.is_breaker_active() && !force_liquidate;
    let action = if deferred {
        ShieldAction::LiquidationDeferred
    } else {
        ShieldAction::LiquidationAllowed
    };
    shield.last_action = action.code();
    events.guard =
    Some(
        LiquidationGuardEvent {
            market: ctx.market_key,
            owner: caller,
            action: action.code(),
            oi_imbalance_bps: imbalance,
            liquidations_in_epoch: shield.liquidations_this_epoch,
            slot: current_slot,
        },
    );
    ctx.perp_shield = shield;
    if deferred {
        (Err(ErrorCode::CircuitBreakerActive), events)
    } else {
        (Ok(action), events)
    }
}

/// Why the authority cannot arm the breaker.
pub open spec fn trigger_error(ctx: TriggerCircuitBreaker, alert_index: u64) -> Option<ErrorCode> {
    if ctx.perp_shield.authority != ctx.authority {
        Some(ErrorCode::NotApproved)
    } else if ctx.perp_shield.initialized != 1 {
        Some(ErrorCode::ShieldNotInitialized)
    } else if alert_index != ctx.perp_shield.trigger_count.saturating_add(1) {
        Some(ErrorCode::NotApproved)
    } else {
        None
    }
}

/// The record of an arming by the authority.
pub open spec fn manual_alert(
    ctx: TriggerCircuitBreaker,
    reason_flags: u8,
    slot: u64,
) -> CascadeAlert {
    CascadeAlert {
        shield: ctx.shield_key,
        market: ctx.market_key,
        alert_index: ctx.perp_shield.trigger_count.saturating_add(1),
        triggered_at_slot: slot,
        reset_at_slot: 0,
        oi_imbalance_bps: ctx.perp_market.imbalance() as u16,
        liquidations_in_epoch: ctx.perp_shield.liquidations_this_epoch,
        price_velocity_bps: ctx.perp_shield.price_velocity_bps,
        trigger_flags: reason_flags,
        resolution: 0,
        bump: ctx.cascade_alert_bump,
        padding: [0, 0, 0, 0, 0],
    }
}

/// Arms the breaker by hand. `alert_index` is the number of this arming.
pub fn trigger_circuit_breaker(
    ctx: &mut TriggerCircuitBreaker,
    reason_flags: u8,
    alert_index: u64,
    current_slot: u64,
) -> (outcome: Result<(CascadeAlert, CircuitBreakerTriggeredEvent), ErrorCode>)
    requires
        old(ctx).perp_shield.authority == old(ctx).authority ==> old(
            ctx,
        ).perp_market.open_interest() <= u64::MAX,
    ensures
        outcome == (match trigger_error(*old(ctx), alert_index) {
            Some(error) => Err(error),
            None => {
                let alert = manual_alert(*old(ctx), reason_flags, current_slot);
                Ok(
                    (
                        alert,
                        CircuitBreakerTriggeredEvent {
                            market: alert.market,
                            shield: alert.shield,
                            trigger_count: alert.alert_index,
                            oi_imbalance_bps: alert.oi_imbalance_bps,
                            liquidations_in_epoch: alert.liquidations_in_epoch,
                            price_velocity_bps: alert.price_velocity_bps,
                            trigger_flags: reason_flags,
                            slot: current_slot,
                        },
                    ),
                )
            },
        }),
        *final(ctx) == (if outcome is Ok {
            TriggerCircuitBreaker {
                perp_shield: armed(old(ctx).perp_shield, current_slot),
                ..*old(ctx)
            }
        } else {
            *old(ctx)
        }),
{
    if ctx.perp_shield.authority != ctx.authority {
        return Err(ErrorCode::NotApproved);
    }
    let imbalance: u16 = ctx.perp_market.oi_imbalance_bps();
    if ctx.perp_shield.initialized != 1 {
        return Err(ErrorCode::ShieldNotInitialized);
    }
    let trigger_index: u64 = ctx.perp_shield.trigger_count.saturating_add(1);
    if alert_index != trigger_index {
        return Err(ErrorCode::NotApproved);
    }
    ctx.perp_shield.circuit_breaker_active = 1;
    ctx.perp_shield.triggered_at_slot = current_slot;
    ctx.perp_shield.trigger_count = trigger_index;
    ctx.perp_shield.last_action = ShieldAction::CircuitBreakerArmed.code();
    let alert = CascadeAlert {
        shield: ctx.shield_key,
        market: ctx.market_key,
        alert_index: trigger_index,
        triggered_at_slot: current_slot,
        reset_at_slot: 0,
        oi_imbalance_bps: imbalance,
        liquidations_in_epoch: ctx.perp_shield.liquidations_this_epoch,
        price_velocity_bps: ctx.perp_shield.price_velocity_bps,
        trigger_flags: reason_flags,
        resolution: 0,
        bump: ctx.cascade_alert_bump,
        padding: [0, 0, 0, 0, 0],
    };
    let event = CircuitBreakerTriggeredEvent {
        market: ctx.market_key,
        shield: ctx.shield_key,
        trigger_count: trigger_index,
        oi_imbalance_bps: imbalance,
        liquidations_in_epoch: alert.liquidations_in_epoch,
        price_velocity_bps: alert.price_velocity_bps,
        trigger_flags: reason_flags,
        slot: current_slot,
    };
    Ok((alert, event))
}

/// Why the authority cannot reset the breaker.
pub open spec fn reset_error(
    ctx: ResetCircuitBreaker,
    force: bool,
    slot: u64,
) -> Option<ErrorCode> {
    if ctx.perp_shield.authority != ctx.authority {
        Some(ErrorCode::NotApproved)
    } else if ctx.perp_shield.initialized != 1 {
        Some(ErrorCode::ShieldNotInitialized)
    } else if ctx.perp_shield.active() && !force && slot < ctx.perp_shield.triggered_at_slot
        + ctx.perp_shield.cooldown() {
        Some(ErrorCode::CircuitBreakerActive)
    } else {
        None
    }
}

/// The breaker reset by the authority at `slot`, with a new epoch.
pub open spec fn reset_by_authority(shield: PerpShield, slot: u64) -> PerpShield {
    (PerpShield {
        circuit_breaker_active: 0,
        reset_at_slot: slot,
        last_action: ShieldAction::Reset.number(),
        ..shield
    }).epoch_started(slot)
}

/// Resets the breaker by hand: after its cooldown, or earlier where forced. Nothing happens where
/// it is not active.
pub fn reset_circuit_breaker(
    ctx: &mut ResetCircuitBreaker,
    force_reset: bool,
    current_slot: u64,
) -> (outcome: Result<Option<CircuitBreakerResetEvent>, ErrorCode>)
    requires
        old(ctx).perp_shield.authority == old(ctx).authority && old(ctx).perp_shield.initialized
            == 1 && old(ctx).perp_shield.active() && !force_reset ==> old(
            ctx,
        ).perp_shield.triggered_at_slot + old(ctx).perp_shield.cooldown() <= u64::MAX,
    ensures
        outcome == (match reset_error(*old(ctx), force_reset, current_slot) {
            Some(error) => Err(error),
            None => Ok(
                if old(ctx).perp_shield.active() {
                    Some(
                        CircuitBreakerResetEvent {
                            market: old(ctx).perp_shield.market,
                            shield: old(ctx).shield_key,
                            trigger_count: old(ctx).perp_shield.trigger_count,
                            by_authority: true,
                            slot: current_slot,
                        },
                    )
                } else {
                    None
                },
            ),
        }),
        *final(ctx) == (if outcome is Ok && old(ctx).perp_shield.active() {
            ResetCircuitBreaker {
                perp_shield: reset_by_authority(old(ctx).perp_shield, current_slot),
                ..*old(ctx)
            }
        } else {
            *old(ctx)
        }),
{
    if ctx.perp_shield.authority != ctx.authority {
        return Err(ErrorCode::NotApproved);
    }
    if ctx.perp_shield.initialized != 1 {
        return Err(ErrorCode::ShieldNotInitialized);
    }
    if !ctx.perp_shield.is_breaker_active() {
        return Ok(None);
    }
    if !force_reset {
        if !ctx.perp_shield.cooldown_elapsed(current_slot) {
            return Err(ErrorCode::CircuitBreakerActive);
        }
    }
    ctx.perp_shield.circuit_breaker_active = 0;
    ctx.perp_shield.reset_at_slot = current_slot;
    ctx.perp_shield.last_action = ShieldAction::Reset.code();
    ctx.perp_shield.reset_epoch(current_slot);
    Ok(
        Some(
            CircuitBreakerResetEvent {
                market: ctx.perp_shield.market,
                shield: ctx.shield_key,
                trigger_count: ctx.perp_shield.trigger_count,
                by_authority: true,
                slot: current_slot,
            },
        ),
    )
}

} // verus!
