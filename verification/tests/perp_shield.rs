use nebula::amm::error::ErrorCode;
use nebula::amm::instructions::perp_market::{handler_init_market, InitPerpMarket};
use nebula::amm::instructions::perp_shield::{
    initialize_shield, perp_shield_liquidation_guard, reset_circuit_breaker,
    trigger_circuit_breaker, InitializeShield, PerpShieldLiquidationGuard, ResetCircuitBreaker,
    TriggerCircuitBreaker,
};
use nebula::amm::states::perp_market::PerpMarket;
use nebula::amm::states::perp_shield::{CascadeAlert, PerpShield, ShieldAction};
use nebula::keys::Pubkey;

fn key(n: u8) -> Pubkey {
    Pubkey { bytes: [n; 32] }
}

fn market() -> PerpMarket {
    let ctx = InitPerpMarket {
        admin: key(1),
        base_mint: key(2),
        quote_mint: key(3),
        collateral_vault: key(4),
        insurance_fund_vault: key(5),
        perp_market_bump: 77,
    };
    let mut m = handler_init_market(&ctx, 42, 20, 100, 10, 5, 50, key(6)).unwrap();
    m.long_open_interest = 5;
    m.short_open_interest = 5;
    m.mark_price_x64 = 1000;
    m
}

fn shield() -> PerpShield {
    let ctx = InitializeShield {
        authority: key(30),
        perp_market: key(8),
        perp_shield: key(7),
        perp_shield_bump: 1,
    };
    initialize_shield(&ctx, 100, 0, 3, 0, 1000).0
}

fn guard() -> PerpShieldLiquidationGuard {
    PerpShieldLiquidationGuard {
        liquidation_authority: key(30),
        market_key: key(8),
        perp_market: market(),
        shield_key: key(7),
        perp_shield: shield(),
        cascade_alert_bump: 17,
    }
}

#[test]
fn breaker_starts_inactive() {
    let ctx = InitializeShield {
        authority: key(30),
        perp_market: key(8),
        perp_shield: key(7),
        perp_shield_bump: 1,
    };
    let (s, event) = initialize_shield(&ctx, 0, 0, 0, 0, 1000);
    assert!(!s.is_breaker_active());
    assert_eq!((s.epoch_slots, s.epoch_start_slot, s.initialized), (1800, 1000, 1));
    assert_eq!((s.oi_threshold(), s.liq_threshold(), s.velocity_threshold()), (7000, 50, 500));
    assert!(event.market == key(8) && event.shield == key(7));
    assert_eq!(event.slot, 1000);
}

#[test]
fn calm_liquidation_is_allowed_and_counted() {
    let mut ctx = guard();
    let (outcome, events) = perp_shield_liquidation_guard(&mut ctx, false, 1001);
    assert_eq!(outcome, Ok(ShieldAction::LiquidationAllowed));
    let event = events.guard.unwrap();
    assert_eq!((event.action, event.liquidations_in_epoch, event.oi_imbalance_bps), (3, 1, 0));
    assert!(events.triggered.is_none() && events.reset.is_none() && events.alert.is_none());
    assert_eq!(ctx.perp_shield.liquidations_this_epoch, 1);
    assert_eq!(ctx.perp_shield.last_action, 3);
    assert_eq!((ctx.perp_shield.last_mark_price_x64, ctx.perp_shield.last_price_slot), (1000, 1001));
}

#[test]
fn many_liquidations_arm_the_breaker() {
    let mut ctx = guard();
    for slot in 1001..1003 {
        assert!(perp_shield_liquidation_guard(&mut ctx, false, slot).0.is_ok());
    }
    let (outcome, events) = perp_shield_liquidation_guard(&mut ctx, false, 1003);
    assert_eq!(outcome, Err(ErrorCode::CircuitBreakerActive));
    let event = events.triggered.unwrap();
    assert_eq!((event.trigger_count, event.trigger_flags, event.liquidations_in_epoch), (1, 2, 3));
    let alert = events.alert.unwrap();
    assert!(alert.shield == key(7) && alert.market == key(8));
    assert_eq!((alert.alert_index, alert.triggered_at_slot, alert.reset_at_slot), (1, 1003, 0));
    assert_eq!((alert.oi_imbalance_bps, alert.liquidations_in_epoch), (0, 3));
    assert_eq!((alert.price_velocity_bps, alert.trigger_flags), (0, 2));
    assert_eq!((alert.resolution, alert.bump, alert.padding), (0, 17, [0; 5]));
    assert!(!alert.is_resolved());
    assert!(ctx.perp_shield.is_breaker_active());
    assert_eq!((ctx.perp_shield.triggered_at_slot, ctx.perp_shield.trigger_count), (1003, 1));
    assert_eq!(ctx.perp_shield.last_action, 4);
    let (outcome, events) = perp_shield_liquidation_guard(&mut ctx, true, 1004);
    assert_eq!(outcome, Ok(ShieldAction::LiquidationAllowed));
    assert!(events.triggered.is_none() && events.alert.is_none());
}

#[test]
fn imbalance_arms_the_breaker() {
    let mut ctx = guard();
    ctx.perp_market.short_open_interest = 0;
    let (outcome, events) = perp_shield_liquidation_guard(&mut ctx, false, 1001);
    assert_eq!(outcome, Err(ErrorCode::CircuitBreakerActive));
    assert_eq!(events.triggered.unwrap().trigger_flags, 1);
    let alert = events.alert.unwrap();
    assert_eq!((alert.trigger_flags, alert.oi_imbalance_bps), (1, 10_000));
    assert_eq!(ctx.perp_shield.last_oi_imbalance_bps, 10_000);
}

#[test]
fn fast_price_arms_the_breaker() {
    let mut ctx = guard();
    assert!(perp_shield_liquidation_guard(&mut ctx, false, 1001).0.is_ok());
    ctx.perp_market.mark_price_x64 = 1100;
    let (outcome, events) = perp_shield_liquidation_guard(&mut ctx, false, 1003);
    assert_eq!(outcome, Err(ErrorCode::CircuitBreakerActive));
    let event = events.triggered.unwrap();
    assert_eq!((event.trigger_flags, event.price_velocity_bps), (4, 500));
}

#[test]
fn armed_breaker_resets_itself_after_cooldown_when_calm() {
    let mut ctx = guard();
    ctx.perp_shield.circuit_breaker_active = 1;
    ctx.perp_shield.triggered_at_slot = 1000;
    let (outcome, _) = perp_shield_liquidation_guard(&mut ctx, false, 1299);
    assert_eq!(outcome, Err(ErrorCode::CircuitBreakerActive));
    let (outcome, events) = perp_shield_liquidation_guard(&mut ctx, false, 1300);
    assert_eq!(outcome, Ok(ShieldAction::LiquidationAllowed));
    let reset = events.reset.unwrap();
    assert!(!reset.by_authority);
    assert_eq!(ctx.perp_shield.reset_at_slot, 1300);
    assert!(!ctx.perp_shield.is_breaker_active());

    let mut ctx = guard();
    ctx.perp_shield.circuit_breaker_active = 1;
    ctx.perp_market.short_open_interest = 0;
    let (outcome, events) = perp_shield_liquidation_guard(&mut ctx, false, 5000);
    assert_eq!(outcome, Err(ErrorCode::CircuitBreakerActive));
    assert!(events.reset.is_none());
}

#[test]
fn guard_is_refused_with_its_reason() {
    let mut ctx = guard();
    ctx.liquidation_authority = key(6);
    assert!(perp_shield_liquidation_guard(&mut ctx, false, 1001).0.is_ok());
    ctx.liquidation_authority = key(99);
    let (outcome, events) = perp_shield_liquidation_guard(&mut ctx, true, 1001);
    assert_eq!(outcome, Err(ErrorCode::NotApproved));
    assert!(events.guard.is_none() && events.alert.is_none());
    ctx.perp_shield.initialized = 0;
    assert_eq!(
        perp_shield_liquidation_guard(&mut ctx, false, 1001).0,
        Err(ErrorCode::ShieldNotInitialized)
    );
    ctx.perp_market.status = 1;
    assert_eq!(
        perp_shield_liquidation_guard(&mut ctx, false, 1001).0,
        Err(ErrorCode::MarketPaused)
    );
    let mut emergency = guard();
    emergency.perp_market.status = 2;
    assert!(perp_shield_liquidation_guard(&mut emergency, false, 1001).0.is_ok());
}

#[test]
fn authority_arms_and_resets() {
    let mut ctx = TriggerCircuitBreaker {
        authority: key(30),
        market_key: key(8),
        perp_market: market(),
        shield_key: key(7),
        perp_shield: shield(),
        cascade_alert_bump: 9,
    };
    assert_eq!(
        trigger_circuit_breaker(&mut ctx, 5, 2, 2000).unwrap_err(),
        ErrorCode::NotApproved
    );
    let (alert, event) = trigger_circuit_breaker(&mut ctx, 5, 1, 2000).unwrap();
    assert_eq!((alert.alert_index, alert.trigger_flags, alert.triggered_at_slot), (1, 5, 2000));
    assert!(!alert.is_resolved());
    assert_eq!(event.trigger_count, 1);
    assert!(ctx.perp_shield.is_breaker_active());
    assert_eq!(ctx.perp_shield.last_action, 2);

    let mut reset = ResetCircuitBreaker {
        authority: key(30),
        market_key: key(8),
        shield_key: key(7),
        perp_shield: ctx.perp_shield,
    };
    assert_eq!(
        reset_circuit_breaker(&mut reset, false, 2299).unwrap_err(),
        ErrorCode::CircuitBreakerActive
    );
    let event = reset_circuit_breaker(&mut reset, false, 2300).unwrap().unwrap();
    assert!(event.by_authority);
    assert!(!reset.perp_shield.is_breaker_active());
    assert_eq!((reset.perp_shield.epoch_start_slot, reset.perp_shield.last_action), (2300, 5));
    assert!(reset_circuit_breaker(&mut reset, false, 2301).unwrap().is_none());
    reset.perp_shield = ctx.perp_shield;
    assert!(reset_circuit_breaker(&mut reset, true, 2001).unwrap().is_some());
    reset.perp_shield.initialized = 0;
    assert_eq!(
        reset_circuit_breaker(&mut reset, true, 2001).unwrap_err(),
        ErrorCode::ShieldNotInitialized
    );
    reset.authority = key(1);
    assert_eq!(reset_circuit_breaker(&mut reset, true, 2001).unwrap_err(), ErrorCode::NotApproved);
    ctx.perp_shield.initialized = 0;
    assert_eq!(
        trigger_circuit_breaker(&mut ctx, 5, 2, 2000).unwrap_err(),
        ErrorCode::ShieldNotInitialized
    );
    ctx.authority = key(1);
    assert_eq!(
        trigger_circuit_breaker(&mut ctx, 5, 2, 2000).unwrap_err(),
        ErrorCode::NotApproved
    );
}

#[test]
fn velocity_and_epochs() {
    let mut s = shield();
    s.update_price_velocity(1000, 10);
    assert_eq!((s.last_mark_price_x64, s.last_price_slot, s.price_velocity_bps), (1000, 10, 0));
    s.update_price_velocity(1300, 10);
    assert_eq!(s.last_mark_price_x64, 1000);
    s.update_price_velocity(1300, 13);
    assert_eq!(s.price_velocity_bps, 1000);
    s.update_price_velocity(u128::MAX, 14);
    assert_eq!(s.price_velocity_bps, u16::MAX);
    let mut s = shield();
    s.record_liquidation(1099);
    assert_eq!((s.liquidations_this_epoch, s.epoch_start_slot), (1, 1000));
    s.record_liquidation(1100);
    assert_eq!((s.liquidations_this_epoch, s.epoch_start_slot), (1, 1100));
    s.reset_epoch(1200);
    assert_eq!((s.liquidations_this_epoch, s.epoch_start_slot), (0, 1200));
    assert!(!s.should_trip(6999));
    assert!(s.should_trip(7000));
    assert_eq!(s.breach_flags(7000), CascadeAlert::FLAG_OI);
    s.liquidations_this_epoch = 3;
    s.price_velocity_bps = 500;
    assert_eq!(s.breach_flags(7000), 7);
    s.triggered_at_slot = 50;
    assert!(!s.cooldown_elapsed(349) && s.cooldown_elapsed(350));
    s.epoch_slots = 0;
    assert!(!s.cooldown_elapsed(1849) && s.cooldown_elapsed(1850));
}

#[test]
fn actions_have_their_numbers() {
    assert_eq!(ShieldAction::default(), ShieldAction::NoAction);
    let all = [
        ShieldAction::NoAction,
        ShieldAction::Flagged,
        ShieldAction::CircuitBreakerArmed,
        ShieldAction::LiquidationAllowed,
        ShieldAction::LiquidationDeferred,
        ShieldAction::Reset,
        ShieldAction::AutoReset,
    ];
    for (i, action) in all.iter().enumerate() {
        assert_eq!(action.code() as usize, i);
    }
}

#[test]
fn each_arming_has_the_next_number() {
    let mut ctx = guard();
    ctx.perp_shield.trigger_count = 4;
    ctx.perp_market.short_open_interest = 0;
    let (_, events) = perp_shield_liquidation_guard(&mut ctx, true, 1001);
    assert_eq!(events.alert.unwrap().alert_index, 5);
    assert_eq!(ctx.perp_shield.trigger_count, 5);
    let mut ctx = guard();
    ctx.perp_shield.trigger_count = u64::MAX;
    ctx.perp_market.short_open_interest = 0;
    let (_, events) = perp_shield_liquidation_guard(&mut ctx, true, 1001);
    assert_eq!(events.alert.unwrap().alert_index, u64::MAX);
}

#[test]
fn default_breaker_and_alert_are_all_zeros() {
    let s = PerpShield::default();
    assert!(s.market == key(0) && s.authority == key(0));
    assert_eq!((s.initialized, s.trigger_count, s.epoch_slots, s.padding), (0, 0, 0, [0; 4]));
    assert!(!s.is_breaker_active());
    let alert = CascadeAlert::default();
    assert!(alert.shield == key(0) && alert.market == key(0));
    assert_eq!((alert.alert_index, alert.triggered_at_slot, alert.trigger_flags), (0, 0, 0));
}
