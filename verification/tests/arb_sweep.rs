use nebula::amm::error::ErrorCode;
use nebula::amm::instructions::arb_sweep::{
    apply_arb_to_pool, calculate_spread, calculate_sweep_amount, check_accounts, compute_arb_swap,
    get_twap_tick, handler, handler_init, handler_toggle, reference_tick, settle_tick, ArbSweep,
    InitArbConfig, ToggleArb,
};
use nebula::amm::states::nebula_shield::ArbConfig;
use nebula::amm::states::oracle::{Observation, ObservationState};
use nebula::amm::states::pool::PoolState;
use nebula::keys::Pubkey;

const Q64: u128 = 1 << 64;

fn key(n: u8) -> Pubkey {
    Pubkey { bytes: [n; 32] }
}

fn config() -> ArbConfig {
    handler_init(
        &InitArbConfig { admin: key(1), pool: key(9), arb_config_bump: 250 },
        key(10), key(11), 50, 2000, 15, 1000, 100_000_000_000, 10,
    )
    .unwrap()
}

fn sweep(spot: u128) -> ArbSweep {
    ArbSweep {
        arb_authority: key(10),
        pool_key: key(9),
        pool: PoolState {
            amm_config: key(1),
            observation_key: key(2),
            token_mint_0: key(3),
            token_vault_0: key(4),
            token_vault_1: key(5),
            liquidity: 1_000_000_000_000,
            sqrt_price_x64: spot,
            tick_current: 0,
            protocol_fees_token_0: 0,
            protocol_fees_token_1: 0,
            open_time: 0,
            padding1: 0,
        },
        arb_config: config(),
        oracle: ObservationState {
            observation_index: 3,
            observations: vec![
                Observation { block_timestamp: 100, tick_cumulative: 0 },
                Observation { block_timestamp: 110, tick_cumulative: 50 },
                Observation { block_timestamp: 128, tick_cumulative: 230 },
                Observation { block_timestamp: 0, tick_cumulative: 0 },
            ],
        },
        treasury_vault: key(11),
    }
}

#[test]
fn authority_sweeps_the_spread() {
    let mut ctx = sweep(Q64 + Q64 / 10);
    assert_eq!(reference_tick(&ctx, 10, 130), Ok(10));
    let event = handler(&mut ctx, 10, 130, Ok(Q64)).unwrap();
    assert_eq!(event.spread_bps, 999);
    assert_eq!(event.sweep_amount, 79_999_999_999);
    assert_eq!(event.amount_in, 79_999_999_999);
    assert_eq!(event.amount_out, 999_999_997_362);
    assert_eq!(event.treasury_amount, 183_999_999_472);
    assert!(event.a_to_b);
    assert_eq!(ctx.pool.sqrt_price_x64, 18_815_678_955_202_189_392);
    assert_eq!(ctx.arb_config.total_profit_captured_b, 183_999_999_472);
    assert_eq!(ctx.arb_config.total_profit_captured_a, 0);
    assert_eq!(ctx.arb_config.last_sweep_slot, 10);
    assert_eq!(settle_tick(&mut ctx.pool, Ok(395)), Ok(()));
    assert_eq!(ctx.pool.tick_current, 395);
    assert_eq!(handler(&mut ctx, 19, 130, Ok(Q64)).unwrap_err(), ErrorCode::ArbCooldownActive);
}

#[test]
fn sweep_below_the_average_is_captured_in_token_a() {
    let mut ctx = sweep(Q64 - Q64 / 10);
    let event = handler(&mut ctx, 10, 130, Ok(Q64)).unwrap();
    assert!(!event.a_to_b);
    assert_eq!(event.amount_out, 1_000_000_000_000);
    assert_eq!(event.treasury_amount, 184_000_000_000);
    assert_eq!(ctx.arb_config.total_profit_captured_a, 184_000_000_000);
    assert_eq!(ctx.pool.sqrt_price_x64, 18_077_809_192_216_913_840);
}

#[test]
fn accounts_of_a_sweep_are_checked_in_order() {
    let mut ctx = sweep(Q64);
    assert_eq!(check_accounts(&ctx), Ok(()));
    ctx.treasury_vault = key(99);
    assert_eq!(check_accounts(&ctx), Err(ErrorCode::InvalidTreasury));
    ctx.arb_config.enabled = false;
    assert_eq!(check_accounts(&ctx), Err(ErrorCode::ArbDisabled));
    ctx.arb_authority = key(99);
    assert_eq!(check_accounts(&ctx), Err(ErrorCode::NotSender));
    ctx.pool_key = key(99);
    assert_eq!(check_accounts(&ctx), Err(ErrorCode::ConstraintRaw));
    assert_eq!(handler(&mut ctx, 10, 130, Ok(Q64)).unwrap_err(), ErrorCode::ConstraintRaw);
}

#[test]
fn sweeps_without_data_spread_or_gain_are_refused() {
    let mut ctx = sweep(Q64 + Q64 / 10);
    assert_eq!(handler(&mut ctx, 9, 130, Ok(Q64)).unwrap_err(), ErrorCode::ArbCooldownActive);
    ctx.oracle.observation_index = 2;
    assert_eq!(handler(&mut ctx, 10, 130, Ok(Q64)).unwrap_err(), ErrorCode::InsufficientOracleData);
    ctx.oracle.observation_index = 3;
    assert_eq!(handler(&mut ctx, 10, 128, Ok(Q64)).unwrap_err(), ErrorCode::InsufficientOracleData);
    assert_eq!(
        handler(&mut ctx, 10, 130, Err(ErrorCode::PriceOutOfRange)).unwrap_err(),
        ErrorCode::PriceOutOfRange
    );
    ctx.arb_config.min_spread_bps = 1000;
    assert_eq!(handler(&mut ctx, 10, 130, Ok(Q64)).unwrap_err(), ErrorCode::SpreadTooSmall);
    let mut thin = sweep(Q64 + Q64 / 10);
    thin.pool.liquidity = 1;
    assert_eq!(handler(&mut thin, 10, 130, Ok(Q64)).unwrap_err(), ErrorCode::NoArbProfit);
    assert_eq!(thin.pool.sqrt_price_x64, Q64 + Q64 / 10);
    assert_eq!(thin.arb_config.last_sweep_slot, 0);
    let before = thin.pool.tick_current;
    assert_eq!(
        settle_tick(&mut thin.pool, Err(ErrorCode::PriceOutOfRange)),
        Err(ErrorCode::PriceOutOfRange)
    );
    assert_eq!(thin.pool.tick_current, before);
}

#[test]
fn configuration_starts_with_the_documented_defaults() {
    let c = config();
    assert!(c.enabled);
    assert_eq!(c.manipulation_tax_bps, 9000);
    assert_eq!(c.effective_manipulation_threshold_bps(), 500);
    assert_eq!(c.last_sweep_slot, 0);
    assert_eq!(c.bump, 250);
    assert_eq!(ArbConfig::LEN, 190);
}

#[test]
fn configuration_parameters_are_checked() {
    let ctx = InitArbConfig { admin: key(1), pool: key(9), arb_config_bump: 1 };
    let init = |spread, share, window, low, high| {
        handler_init(&ctx, key(10), key(11), spread, share, window, low, high, 10)
    };
    assert_eq!(init(50, 10_001, 15, 1, 2).unwrap_err(), ErrorCode::ArithmeticOverflow);
    assert_eq!(init(0, 10_000, 15, 1, 2).unwrap_err(), ErrorCode::ZeroLiquidity);
    assert_eq!(init(50, 10_000, 15, 2, 2).unwrap_err(), ErrorCode::AmountBelowMin);
    assert_eq!(init(50, 10_000, 14, 1, 2).unwrap_err(), ErrorCode::InsufficientOracleData);
    assert!(init(50, 10_000, 15, 1, 2).is_ok());
}

#[test]
fn authority_toggles_the_sweep() {
    let mut ctx = ToggleArb { arb_authority: key(10), arb_config: config(), pool: key(9) };
    assert_eq!(handler_toggle(&mut ctx, false), Ok(()));
    assert!(!ctx.arb_config.enabled);
    ctx.arb_authority = key(1);
    assert_eq!(handler_toggle(&mut ctx, true), Err(ErrorCode::NotSender));
    assert!(!ctx.arb_config.enabled);
}

#[test]
fn sweep_arithmetic() {
    assert_eq!(calculate_spread(1100, 1000), (1000, true));
    assert_eq!(calculate_spread(900, 1000), (1000, false));
    assert_eq!(calculate_spread(1000, 1000), (0, false));
    assert_eq!(calculate_spread(5, 0), (0, true));
    assert_eq!(calculate_sweep_amount(2 * Q64, Q64, 1_000_000, 1000, 1_000_000_000, true), 799_999);
    assert_eq!(calculate_sweep_amount(Q64, Q64, 1_000_000, 1000, 1_000_000_000, false), 1000);
    assert_eq!(compute_arb_swap(2 * Q64, 1_000_000, 799_999, true), (799_999, 1_000_000));
    let mut pool = sweep(2 * Q64).pool;
    pool.liquidity = 1_000_000;
    apply_arb_to_pool(&mut pool, 799_999, true);
    assert_eq!(pool.sqrt_price_x64, 22_136_111_335_195_535_649);
    apply_arb_to_pool(&mut pool, u64::MAX, true);
    assert_eq!(pool.sqrt_price_x64, 0);
    let oracle = sweep(Q64).oracle;
    assert_eq!(get_twap_tick(&oracle, 15, 138), Some(10));
    assert_eq!(get_twap_tick(&oracle, 15, 128), None);
}

#[test]
fn average_tick_is_taken_over_the_window() {
    let oracle = ObservationState {
        observation_index: 3,
        observations: vec![
            Observation { block_timestamp: 900, tick_cumulative: 9000 },
            Observation { block_timestamp: 950, tick_cumulative: 9500 },
            Observation { block_timestamp: 1000, tick_cumulative: 10_000 },
            Observation { block_timestamp: 0, tick_cumulative: 0 },
        ],
    };
    assert_eq!(get_twap_tick(&oracle, 60, 1010), Some(10));
    assert_eq!(get_twap_tick(&oracle, 110, 1010), Some(10));
    assert_eq!(get_twap_tick(&oracle, 111, 1010), None);
    assert_eq!(get_twap_tick(&oracle, 4, 1010), None);
    assert_eq!(get_twap_tick(&oracle, u32::MAX, 1010), None);
    let mut ctx = sweep(Q64);
    ctx.oracle = oracle;
    ctx.arb_config.twap_window_seconds = 60;
    assert_eq!(reference_tick(&ctx, 10, 1010), Ok(10));
    ctx.arb_config.twap_window_seconds = 111;
    assert_eq!(reference_tick(&ctx, 10, 1010), Err(ErrorCode::InsufficientOracleData));
}

#[test]
fn default_configuration_is_all_zeros() {
    let c = ArbConfig::default();
    assert!(c.pool == key(0) && c.arb_authority == key(0) && c.treasury == key(0));
    assert!(!c.enabled);
    assert_eq!((c.min_spread_bps, c.treasury_share_bps, c.twap_window_seconds), (0, 0, 0));
    assert_eq!((c.min_sweep_amount, c.max_sweep_amount, c.cooldown_slots), (0, 0, 0));
}
