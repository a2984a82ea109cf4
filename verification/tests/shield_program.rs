use nebula::amm::states::oracle::{Observation, ObservationState};
use nebula::keys::{Pubkey, TIPY_WALLET};
use nebula::shield::error::ShieldError;
use nebula::shield::instructions::arb_sweep::{
    calculate_spread, calculate_sweep_amount, check_accounts, compute_arb_swap, reference_tick,
    ExecuteArbSweep, PriceReference,
};
use nebula::shield::instructions::check_jit::{
    CheckJitProtection, InitJitGuard, JitEvent, RecordJitAdd,
};
use nebula::shield::instructions::initialize_shield::{InitializeShield, ShieldInitConfig};
use nebula::shield::instructions::update_config::{ShieldConfigUpdate, UpdateShieldConfig};
use nebula::shield::state::{GlobalShieldState, JitGuardState, ShieldConfig};
use nebula::shield::{
    check_jit_protection, execute_arb_sweep, get_shield_status, init_jit_guard, initialize_global,
    initialize_shield, record_jit_add, update_shield_config, GetShieldStatus, InitializeGlobal,
};

const Q64: u128 = 1 << 64;

fn key(n: u8) -> Pubkey {
    Pubkey { bytes: [n; 32] }
}

fn global() -> GlobalShieldState {
    initialize_global(&InitializeGlobal { admin: key(1), global_shield_bump: 200 })
}

fn parameters() -> ShieldInitConfig {
    ShieldInitConfig {
        arb_authority: key(10),
        min_spread_bps: 50,
        treasury_share_bps: 2000,
        twap_window_seconds: 15,
        min_sweep_amount: 100,
        max_sweep_amount: 1000,
        cooldown_slots: 5,
        manipulation_threshold_bps: 500,
        min_jit_lock_slots: 0,
    }
}

fn config() -> ShieldConfig {
    let mut ctx = InitializeShield {
        admin: key(1),
        pool: key(9),
        global_shield: global(),
        shield_config_bump: 201,
    };
    initialize_shield(&mut ctx, parameters()).unwrap().0
}

fn nothing() -> ShieldConfigUpdate {
    ShieldConfigUpdate {
        min_spread_bps: None,
        treasury_share_bps: None,
        twap_window_seconds: None,
        min_sweep_amount: None,
        max_sweep_amount: None,
        cooldown_slots: None,
        manipulation_threshold_bps: None,
        min_jit_lock_slots: None,
        enabled: None,
    }
}

fn update(values: ShieldConfigUpdate) -> Result<ShieldConfig, ShieldError> {
    let mut ctx =
        UpdateShieldConfig { arb_authority: key(10), pool: key(9), shield_config: config() };
    update_shield_config(&mut ctx, values).map(|_| ctx.shield_config)
}

fn sweep() -> ExecuteArbSweep {
    ExecuteArbSweep {
        arb_authority: key(10),
        pool: key(9),
        shield_config: config(),
        treasury_vault: Pubkey { bytes: TIPY_WALLET },
        global_shield: global(),
    }
}

#[test]
fn program_starts_with_its_admin_and_no_counts() {
    let g = global();
    assert!(g.admin == key(1));
    assert_eq!(
        (g.pools_protected, g.total_jit_blocks, g.total_arb_sweeps, g.total_treasury_routed, g.bump),
        (0, 0, 0, 0, 200)
    );
    assert_eq!(GlobalShieldState::LEN, 73);
}

#[test]
fn shield_is_set_up_by_the_admin() {
    let mut ctx = InitializeShield {
        admin: key(1),
        pool: key(9),
        global_shield: global(),
        shield_config_bump: 201,
    };
    let (shield, event) = initialize_shield(&mut ctx, parameters()).unwrap();
    assert_eq!(ctx.global_shield.pools_protected, 1);
    assert_eq!(shield.treasury.bytes, TIPY_WALLET);
    assert_eq!(shield.min_jit_lock_slots, 5);
    assert!(shield.enabled && event.enabled);
    assert!(shield.pool == key(9) && event.pool == key(9));
    assert_eq!((shield.last_sweep_slot, shield.bump), (0, 201));
    assert_eq!(ShieldConfig::LEN, 166);
    ctx.admin = key(2);
    assert_eq!(initialize_shield(&mut ctx, parameters()).unwrap_err(), ShieldError::NotAdmin);
    assert_eq!(ctx.global_shield.pools_protected, 1);
}

#[test]
fn shield_parameters_are_checked() {
    let try_init = |change: &dyn Fn(&mut ShieldInitConfig)| {
        let mut p = parameters();
        change(&mut p);
        let mut ctx = InitializeShield {
            admin: key(1),
            pool: key(9),
            global_shield: global(),
            shield_config_bump: 201,
        };
        initialize_shield(&mut ctx, p).map(|x| x.0.min_jit_lock_slots)
    };
    assert_eq!(try_init(&|p| p.treasury_share_bps = 10_001), Err(ShieldError::InvalidShareBps));
    assert_eq!(try_init(&|p| p.min_spread_bps = 0), Err(ShieldError::ZeroSpreadBps));
    assert_eq!(try_init(&|p| p.min_sweep_amount = 1000), Err(ShieldError::InvalidSweepRange));
    assert_eq!(try_init(&|p| p.twap_window_seconds = 14), Err(ShieldError::TwapWindowTooShort));
    assert_eq!(try_init(&|p| p.min_jit_lock_slots = 101), Err(ShieldError::LockSlotsExceedMax));
    assert_eq!(try_init(&|p| p.min_jit_lock_slots = 100), Ok(100));
}

#[test]
fn updates_change_what_they_name() {
    let c = update(ShieldConfigUpdate {
        min_spread_bps: Some(60),
        cooldown_slots: Some(7),
        max_sweep_amount: Some(5000),
        enabled: Some(false),
        ..nothing()
    })
    .unwrap();
    assert_eq!((c.min_spread_bps, c.cooldown_slots, c.max_sweep_amount), (60, 7, 5000));
    assert!(!c.enabled);
    assert_eq!((c.min_sweep_amount, c.treasury_share_bps), (100, 2000));
    assert_eq!(c.treasury.bytes, TIPY_WALLET);
    let same = update(nothing()).unwrap();
    assert_eq!((same.min_spread_bps, same.cooldown_slots, same.enabled), (50, 5, true));
}

#[test]
fn updates_are_checked() {
    let refused = |values| update(values).unwrap_err();
    assert_eq!(
        refused(ShieldConfigUpdate { min_spread_bps: Some(0), ..nothing() }),
        ShieldError::ZeroSpreadBps
    );
    assert_eq!(
        refused(ShieldConfigUpdate { treasury_share_bps: Some(10_001), ..nothing() }),
        ShieldError::InvalidShareBps
    );
    assert_eq!(
        refused(ShieldConfigUpdate { twap_window_seconds: Some(14), ..nothing() }),
        ShieldError::TwapWindowTooShort
    );
    assert_eq!(
        refused(ShieldConfigUpdate { min_sweep_amount: Some(1000), ..nothing() }),
        ShieldError::InvalidSweepRange
    );
    assert_eq!(
        refused(ShieldConfigUpdate { min_jit_lock_slots: Some(101), ..nothing() }),
        ShieldError::LockSlotsExceedMax
    );
    let mut ctx =
        UpdateShieldConfig { arb_authority: key(10), pool: key(8), shield_config: config() };
    assert_eq!(update_shield_config(&mut ctx, nothing()).unwrap_err(), ShieldError::PoolMismatch);
    ctx.arb_authority = key(1);
    assert_eq!(update_shield_config(&mut ctx, nothing()).unwrap_err(), ShieldError::NotArbAuthority);
}

#[test]
fn refused_update_changes_nothing() {
    let mut ctx =
        UpdateShieldConfig { arb_authority: key(10), pool: key(9), shield_config: config() };
    let values = ShieldConfigUpdate {
        min_spread_bps: Some(60),
        min_jit_lock_slots: Some(101),
        ..nothing()
    };
    assert!(update_shield_config(&mut ctx, values).is_err());
    assert_eq!(ctx.shield_config.min_spread_bps, 50);
}

/// Prices at exactly the configured spread.
const WIDE: PriceReference = PriceReference { spot: 10_050, twap: 10_000 };

#[test]
fn sweep_routes_the_treasury_share() {
    let mut ctx = sweep();
    let event = execute_arb_sweep(&mut ctx, 500, WIDE, 5).unwrap();
    assert_eq!((event.sweep_amount, event.treasury_amount, event.slot), (500, 100, 5));
    assert_eq!(ctx.shield_config.last_sweep_slot, 5);
    assert_eq!(ctx.shield_config.total_profit_captured_a, 100);
    assert_eq!(ctx.global_shield.total_arb_sweeps, 1);
    assert_eq!(ctx.global_shield.total_treasury_routed, 100);
    assert_eq!(
        execute_arb_sweep(&mut ctx, 500, WIDE, 9).unwrap_err(),
        ShieldError::ArbCooldownActive
    );
    assert!(execute_arb_sweep(&mut ctx, 500, WIDE, 10).is_ok());
}

#[test]
fn sweep_is_refused_with_its_reason() {
    let refused = |change: &dyn Fn(&mut ExecuteArbSweep), amount, reference| {
        let mut ctx = sweep();
        change(&mut ctx);
        execute_arb_sweep(&mut ctx, amount, reference, 5).unwrap_err()
    };
    assert_eq!(refused(&|c| c.arb_authority = key(1), 500, WIDE), ShieldError::NotArbAuthority);
    assert_eq!(refused(&|c| c.pool = key(1), 500, WIDE), ShieldError::PoolMismatch);
    assert_eq!(refused(&|c| c.shield_config.enabled = false, 500, WIDE), ShieldError::ShieldDisabled);
    assert_eq!(refused(&|c| c.treasury_vault = key(1), 500, WIDE), ShieldError::InvalidTreasury);
    assert_eq!(
        refused(&|c| c.shield_config.cooldown_slots = 6, 500, WIDE),
        ShieldError::ArbCooldownActive
    );
    assert_eq!(refused(&|_| (), 99, WIDE), ShieldError::AmountBelowMin);
    assert_eq!(refused(&|_| (), 1001, WIDE), ShieldError::AmountBelowMin);
    assert_eq!(
        refused(&|c| c.shield_config.treasury_share_bps = 19, 500, WIDE),
        ShieldError::NoArbProfit
    );
    let narrow = PriceReference { spot: 10_049, twap: 10_000 };
    assert_eq!(refused(&|_| (), 500, narrow), ShieldError::SpreadTooSmall);
    let below = PriceReference { spot: 9_951, twap: 10_000 };
    assert_eq!(refused(&|_| (), 500, below), ShieldError::SpreadTooSmall);
    assert_eq!(refused(&|_| (), 99, narrow), ShieldError::SpreadTooSmall);
    assert_eq!(
        refused(&|c| c.shield_config.cooldown_slots = 6, 500, narrow),
        ShieldError::ArbCooldownActive
    );
    let deep = PriceReference { spot: 9_950, twap: 10_000 };
    assert!(execute_arb_sweep(&mut sweep(), 500, deep, 5).is_ok());
}

#[test]
fn sweep_is_held_against_the_average_of_its_window() {
    let oracle = ObservationState {
        observation_index: 3,
        observations: vec![
            Observation { block_timestamp: 100, tick_cumulative: 0 },
            Observation { block_timestamp: 110, tick_cumulative: 50 },
            Observation { block_timestamp: 128, tick_cumulative: 230 },
            Observation { block_timestamp: 0, tick_cumulative: 0 },
        ],
    };
    let mut ctx = sweep();
    assert_eq!(check_accounts(&ctx), Ok(()));
    assert_eq!(reference_tick(&ctx, &oracle, 5, 130), Ok(10));
    ctx.shield_config.twap_window_seconds = 25;
    assert_eq!(reference_tick(&ctx, &oracle, 5, 130), Ok(8));
    ctx.shield_config.twap_window_seconds = 31;
    assert_eq!(
        reference_tick(&ctx, &oracle, 5, 130),
        Err(ShieldError::InsufficientOracleData)
    );
    assert_eq!(reference_tick(&ctx, &oracle, 4, 130), Err(ShieldError::ArbCooldownActive));
    ctx.treasury_vault = key(1);
    assert_eq!(check_accounts(&ctx), Err(ShieldError::InvalidTreasury));
    assert_eq!(reference_tick(&ctx, &oracle, 4, 130), Err(ShieldError::InvalidTreasury));
}

#[test]
fn locks_follow_position_or_pool() {
    let mut ctx = InitJitGuard {
        owner: key(3),
        pool: key(9),
        position_nft_mint: key(4),
        shield_config: config(),
        jit_guard_bump: 9,
    };
    assert_eq!(init_jit_guard(&ctx, 0, 50).unwrap().min_lock_slots, 5);
    assert_eq!(init_jit_guard(&ctx, 7, 50).unwrap().min_lock_slots, 7);
    assert_eq!(init_jit_guard(&ctx, 5000, 50).unwrap().min_lock_slots, 100);
    let guard = init_jit_guard(&ctx, 7, 50).unwrap();
    assert_eq!((guard.last_add_slot, guard.add_count, guard.bump), (50, 1, 9));
    ctx.shield_config.enabled = false;
    assert_eq!(init_jit_guard(&ctx, 7, 50).unwrap_err(), ShieldError::ShieldDisabled);
    ctx.pool = key(1);
    assert_eq!(init_jit_guard(&ctx, 7, 50).unwrap_err(), ShieldError::PoolMismatch);
    assert_eq!(JitGuardState::LEN, 107);
}

#[test]
fn removal_is_refused_while_locked() {
    let init = InitJitGuard {
        owner: key(3),
        pool: key(9),
        position_nft_mint: key(4),
        shield_config: config(),
        jit_guard_bump: 9,
    };
    let mut ctx = CheckJitProtection {
        caller: key(3),
        jit_guard: init_jit_guard(&init, 7, 50).unwrap(),
        global_shield: global(),
    };
    let said = check_jit_protection(&mut ctx, 0, 0, 55);
    assert_eq!(said.outcome, Err(ShieldError::JitBackRunDetected));
    assert_eq!(said.return_data, 0);
    assert!(matches!(said.event, JitEvent::Blocked(b) if b.slots_remaining == 2 && b.current_slot == 55));
    assert_eq!((ctx.jit_guard.jit_blocks, ctx.jit_guard.remove_count), (1, 1));
    assert_eq!(ctx.global_shield.total_jit_blocks, 1);
    let said = check_jit_protection(&mut ctx, 0, 0, 57);
    assert_eq!(said.outcome, Ok(()));
    assert_eq!(said.return_data, 1);
    assert!(matches!(said.event, JitEvent::Allowed(a) if a.pool == key(9) && a.current_slot == 57));
    assert_eq!((ctx.jit_guard.jit_blocks, ctx.jit_guard.remove_count), (1, 2));
    assert_eq!(ctx.global_shield.total_jit_blocks, 1);
    let mut add = RecordJitAdd { owner: key(3), jit_guard: ctx.jit_guard };
    record_jit_add(&mut add, 60);
    assert_eq!(add.jit_guard.can_remove(66), (false, 1));
    assert_eq!(add.jit_guard.add_count, 2);
}

#[test]
fn status_reports_configuration_and_counts() {
    let mut ctx = GetShieldStatus { shield_config: config(), global_shield: global() };
    ctx.shield_config.total_profit_captured_b = 8;
    ctx.global_shield.total_arb_sweeps = 3;
    let (event, flag) = get_shield_status(&ctx);
    assert_eq!(flag, 1);
    assert_eq!((event.min_spread_bps, event.cooldown_slots, event.total_profit_b), (50, 5, 8));
    assert_eq!(event.total_arb_sweeps, 3);
    ctx.shield_config.enabled = false;
    assert_eq!(get_shield_status(&ctx).1, 0);
}

#[test]
fn standalone_sweep_arithmetic() {
    assert_eq!(calculate_spread(1100, 1000), (1000, true));
    assert_eq!(calculate_spread(5, 0), (50_000, true));
    assert_eq!(calculate_spread(0, 0), (0, false));
    assert_eq!(calculate_sweep_amount(2 * Q64, Q64, 1_000_000, 1000, 1_000_000_000, true), 799_999);
    assert_eq!(calculate_sweep_amount(Q64, 2 * Q64, 1_000_000, 1000, 5000, false), 5000);
    assert_eq!(compute_arb_swap(2 * Q64, 1_000_000, 799_999, true), (799_999, 1_000_000));
    assert_eq!(compute_arb_swap(0, 0, 0, false), (0, 0));
}

#[test]
fn default_accounts_are_empty() {
    let c = ShieldConfig::default();
    assert!(!c.enabled && c.pool == key(0));
    assert_eq!((c.min_spread_bps, c.max_sweep_amount), (0, 0));
    let g = JitGuardState::default();
    assert_eq!((g.min_lock_slots, g.add_count), (0, 0));
    assert_eq!(GlobalShieldState::default().pools_protected, 0);
}
