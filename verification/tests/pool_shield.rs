use nebula::amm::instructions::nebula_shield::{
    adopt_tick, arb_config_address, compute_inline_arb, detect_same_slot_manipulation,
    is_suspected_backrun, manipulation_reference_tick, plan_sweep, pre_swap_arb_check,
    record_swap_slot, shield_reference_tick, sweep_reference_tick, try_apply_manipulation_tax,
    try_pre_swap_shield, ArbAccount,
};
use nebula::amm::states::nebula_shield::ArbConfig;
use nebula::amm::states::oracle::{Observation, ObservationState};
use nebula::amm::states::pool::PoolState;
use nebula::keys::Pubkey;

const Q64: u128 = 1 << 64;

fn key(n: u8) -> Pubkey {
    Pubkey { bytes: [n; 32] }
}

fn pool(sqrt_price_x64: u128) -> PoolState {
    PoolState {
        amm_config: key(1),
        observation_key: key(2),
        token_mint_0: key(3),
        token_vault_0: key(4),
        token_vault_1: key(5),
        liquidity: 1_000_000_000_000,
        sqrt_price_x64,
        tick_current: 77,
        protocol_fees_token_0: 10,
        protocol_fees_token_1: 20,
        open_time: 0,
        padding1: 0,
    }
}

fn config() -> ArbConfig {
    ArbConfig {
        pool: key(9),
        arb_authority: key(10),
        treasury: key(11),
        min_spread_bps: 50,
        treasury_share_bps: 2000,
        twap_window_seconds: 15,
        min_sweep_amount: 1000,
        max_sweep_amount: 100_000_000_000,
        last_sweep_slot: 100,
        cooldown_slots: 10,
        total_profit_captured_a: 1,
        total_profit_captured_b: 2,
        enabled: true,
        bump: 255,
        manipulation_tax_bps: 9000,
        manipulation_tax_collected_a: 3,
        manipulation_tax_collected_b: 4,
        manipulation_detections: 5,
        manipulation_threshold_bps: 0,
    }
}

fn oracle() -> ObservationState {
    ObservationState {
        observation_index: 3,
        observations: vec![
            Observation { block_timestamp: 100, tick_cumulative: 0 },
            Observation { block_timestamp: 110, tick_cumulative: 50 },
            Observation { block_timestamp: 128, tick_cumulative: 230 },
            Observation { block_timestamp: 0, tick_cumulative: 0 },
        ],
    }
}

fn account(config: ArbConfig, pool_key: &Pubkey, program: &Pubkey) -> ArbAccount {
    ArbAccount {
        key: arb_config_address(pool_key, program).unwrap(),
        owner: *program,
        config: Some(config),
    }
}

#[test]
fn sweep_above_average_pays_in_token_a() {
    let mut p = pool(Q64 + Q64 / 10);
    let mut c = config();
    assert_eq!(sweep_reference_tick(&c, &oracle(), 110, 130), Some(10));
    let report = pre_swap_arb_check(&mut p, &mut c, &oracle(), 110, 130, Some(Q64));
    assert!(report.swept);
    assert!(report.a_to_b);
    assert_eq!(report.profit, 919_999_997_363);
    let event = report.event.unwrap();
    assert_eq!(event.spread_bps, 999);
    assert_eq!(event.sweep_amount, 79_999_999_999);
    assert_eq!(event.slot, 110);
    assert!(event.pool == key(9));
    assert_eq!(p.sqrt_price_x64, 18_815_678_955_202_189_392);
    assert_eq!(p.protocol_fees_token_0, 10);
    assert_eq!(p.protocol_fees_token_1, 20 + 183_999_999_472);
    assert_eq!(p.tick_current, 77);
    assert_eq!(c.total_profit_captured_a, 1);
    assert_eq!(c.total_profit_captured_b, 2 + 919_999_997_363);
    assert_eq!(c.last_sweep_slot, 110);
    adopt_tick(&mut p, Some(395));
    assert_eq!(p.tick_current, 395);
    adopt_tick(&mut p, None);
    assert_eq!(p.tick_current, 395);
}

#[test]
fn sweep_below_average_pays_in_token_b() {
    let mut p = pool(Q64 - Q64 / 10);
    let mut c = config();
    let report = pre_swap_arb_check(&mut p, &mut c, &oracle(), 110, 130, Some(Q64));
    assert!(report.swept);
    assert!(!report.a_to_b);
    assert_eq!(report.profit, 920_000_000_001);
    assert_eq!(p.sqrt_price_x64, 18_077_809_192_216_913_840);
    assert_eq!(p.protocol_fees_token_0, 10 + 184_000_000_000);
    assert_eq!(p.protocol_fees_token_1, 20);
    assert_eq!(c.total_profit_captured_a, 1 + 920_000_000_001);
}

#[test]
fn sweep_never_carries_price_past_average() {
    for tenths in 1u128..10 {
        let spot = Q64 + Q64 * tenths / 10;
        let mut p = pool(spot);
        let mut c = config();
        c.max_sweep_amount = u64::MAX;
        let report = pre_swap_arb_check(&mut p, &mut c, &oracle(), 110, 130, Some(Q64));
        assert!(report.swept);
        assert!(p.sqrt_price_x64 >= Q64 && p.sqrt_price_x64 <= spot);
        assert!(spot - p.sqrt_price_x64 <= (spot - Q64) * 4 / 5);
    }
}

#[test]
fn sweep_is_cut_to_the_largest_amount() {
    let mut c = config();
    c.max_sweep_amount = 5000;
    let sweep = plan_sweep(&pool(Q64 + Q64 / 10), &c, Q64).unwrap();
    assert_eq!(sweep.amount, 5000);
    assert_eq!(sweep.profit, 959_508_726_529);
    assert_eq!(compute_inline_arb(Q64 + Q64 / 10, 1_000_000_000_000, 5000, true), (5000, 959_508_731_529));
}

#[test]
fn no_sweep_below_spread_or_without_gain() {
    let mut c = config();
    c.min_spread_bps = 1000;
    assert!(plan_sweep(&pool(Q64 + Q64 / 10), &c, Q64).is_none());
    c.min_spread_bps = 999;
    assert!(plan_sweep(&pool(Q64 + Q64 / 10), &c, Q64).is_some());
    let mut empty = pool(Q64 + Q64 / 10);
    empty.liquidity = 0;
    assert!(plan_sweep(&empty, &c, Q64).is_none());
    c.min_sweep_amount = 0;
    assert!(plan_sweep(&empty, &c, Q64).is_none());
    assert!(plan_sweep(&pool(Q64), &c, 0).is_none());
}

#[test]
fn no_sweep_while_disabled_cooling_or_blind() {
    let mut c = config();
    assert_eq!(sweep_reference_tick(&c, &oracle(), 109, 130), None);
    c.enabled = false;
    assert_eq!(sweep_reference_tick(&c, &oracle(), 110, 130), None);
    c.enabled = true;
    let mut young = oracle();
    young.observation_index = 2;
    assert_eq!(sweep_reference_tick(&c, &young, 110, 130), None);
    let mut p = pool(Q64 + Q64 / 10);
    let report = pre_swap_arb_check(&mut p, &mut c, &young, 110, 130, Some(Q64));
    assert!(!report.swept);
    assert!(report.event.is_none());
    assert_eq!(p.sqrt_price_x64, Q64 + Q64 / 10);
    assert_eq!(c.last_sweep_slot, 100);
    let report = pre_swap_arb_check(&mut p, &mut c, &oracle(), 110, 130, None);
    assert!(!report.swept);
}

#[test]
fn second_sweep_waits_for_cooldown() {
    let mut p = pool(Q64 + Q64 / 10);
    let mut c = config();
    assert!(pre_swap_arb_check(&mut p, &mut c, &oracle(), 110, 130, Some(Q64)).swept);
    p.sqrt_price_x64 = Q64 + Q64 / 10;
    assert!(!pre_swap_arb_check(&mut p, &mut c, &oracle(), 119, 130, Some(Q64)).swept);
    assert!(pre_swap_arb_check(&mut p, &mut c, &oracle(), 120, 130, Some(Q64)).swept);
}

#[test]
fn manipulation_is_detected_above_threshold() {
    let mut c = config();
    assert_eq!(manipulation_reference_tick(&oracle(), 130), Some(10));
    assert_eq!(c.effective_manipulation_threshold_bps(), 500);
    let moved = pool(Q64 + Q64 / 10);
    let tax = detect_same_slot_manipulation(&moved, &oracle(), &mut c, 130, 500, Some(Q64));
    assert_eq!(tax, 9000);
    assert_eq!(c.manipulation_detections, 6);
    let tax = detect_same_slot_manipulation(&moved, &oracle(), &mut c, 130, 999, Some(Q64));
    assert_eq!(tax, 0);
    assert_eq!(c.manipulation_detections, 6);
    let tax = detect_same_slot_manipulation(&moved, &oracle(), &mut c, 130, 500, None);
    assert_eq!(tax, 0);
    c.manipulation_threshold_bps = 700;
    assert_eq!(c.effective_manipulation_threshold_bps(), 700);
}

#[test]
fn tax_is_booked_on_the_paying_side() {
    let (pool_key, program) = (key(40), key(41));
    let mut p = pool(Q64 + Q64 / 10);
    let mut a = Some(account(config(), &pool_key, &program));
    let report = try_apply_manipulation_tax(
        &mut p, &oracle(), &mut a, &pool_key, &program, 130, 1000, true, Some(7), Some(Q64),
    )
    .unwrap();
    assert_eq!(report.tax_amount, 900);
    let event = report.event.unwrap();
    assert_eq!(event.swap_amount, 1000);
    assert_eq!(event.tax_amount, 900);
    assert_eq!(event.tax_bps, 9000);
    assert_eq!(event.slot, 7);
    assert!(event.a_to_b);
    assert_eq!(p.protocol_fees_token_0, 910);
    assert_eq!(p.protocol_fees_token_1, 20);
    let c = a.unwrap().config.unwrap();
    assert_eq!(c.manipulation_tax_collected_a, 903);
    assert_eq!(c.manipulation_tax_collected_b, 4);
    assert_eq!(c.manipulation_detections, 6);

    let report = try_apply_manipulation_tax(
        &mut p, &oracle(), &mut a, &pool_key, &program, 130, 1000, false, None, Some(Q64),
    )
    .unwrap();
    assert_eq!(report.event.unwrap().slot, 0);
    assert_eq!(p.protocol_fees_token_1, 920);
    assert_eq!(a.unwrap().config.unwrap().manipulation_tax_collected_b, 904);
}

#[test]
fn tax_that_takes_all_or_nothing_is_not_charged() {
    let (pool_key, program) = (key(40), key(41));
    for (bps, amount) in [(10_000u16, 1000u64), (10_001, 1000), (0, 1000), (9000, 1), (1, 9999)] {
        let mut p = pool(Q64 + Q64 / 10);
        let mut c = config();
        c.manipulation_tax_bps = bps;
        let mut a = Some(account(c, &pool_key, &program));
        let report = try_apply_manipulation_tax(
            &mut p, &oracle(), &mut a, &pool_key, &program, 130, amount, true, Some(7), Some(Q64),
        )
        .unwrap();
        assert_eq!(report.tax_amount, 0);
        assert!(report.event.is_none());
        assert_eq!(p.protocol_fees_token_0, 10);
        assert_eq!(a.unwrap().config.unwrap().manipulation_detections, 6);
    }
}

#[test]
fn honest_swap_pays_no_tax() {
    let (pool_key, program) = (key(40), key(41));
    let mut p = pool(Q64);
    let mut a = Some(account(config(), &pool_key, &program));
    let report = try_apply_manipulation_tax(
        &mut p, &oracle(), &mut a, &pool_key, &program, 130, 1000, true, Some(7), Some(Q64),
    )
    .unwrap();
    assert_eq!(report.tax_amount, 0);
    assert_eq!(a.unwrap().config.unwrap().manipulation_detections, 5);
}

#[test]
fn shield_sweeps_with_the_configuration_of_the_pool_only() {
    let (pool_key, program) = (key(40), key(41));
    let good = account(config(), &pool_key, &program);

    let mut p = pool(Q64 + Q64 / 10);
    let mut a = Some(good);
    assert_eq!(
        shield_reference_tick(&oracle(), &a, &good.key, &program, Some(110), 130),
        Some(10)
    );
    let report = try_pre_swap_shield(
        &mut p, &oracle(), &mut a, &pool_key, &program, Some(110), 130, Some(Q64),
    )
    .unwrap();
    assert!(report.swept);
    assert_eq!(a.unwrap().config.unwrap().last_sweep_slot, 110);

    let wrong_key = ArbAccount { key: key(99), ..good };
    let wrong_owner = ArbAccount { owner: key(99), ..good };
    let unreadable = ArbAccount { config: None, ..good };
    for account in [Some(wrong_key), Some(wrong_owner), Some(unreadable), None] {
        let mut p = pool(Q64 + Q64 / 10);
        let mut a = account;
        let report = try_pre_swap_shield(
            &mut p, &oracle(), &mut a, &pool_key, &program, Some(110), 130, Some(Q64),
        )
        .unwrap();
        assert!(!report.swept);
        assert_eq!(p.sqrt_price_x64, Q64 + Q64 / 10);
        let tax = try_apply_manipulation_tax(
            &mut p, &oracle(), &mut a, &pool_key, &program, 130, 1000, true, Some(7), Some(Q64),
        )
        .unwrap();
        assert_eq!(tax.tax_amount, 0);
        assert_eq!(p.protocol_fees_token_0, 10);
    }
    let mut a = Some(good);
    let report = try_pre_swap_shield(
        &mut pool(Q64 + Q64 / 10), &oracle(), &mut a, &pool_key, &program, None, 130, Some(Q64),
    )
    .unwrap();
    assert!(!report.swept);
}

#[test]
fn shield_stands_aside_where_numbers_leave_their_types() {
    let (pool_key, program) = (key(40), key(41));
    let mut c = config();
    c.cooldown_slots = u64::MAX;
    let mut a = Some(account(c, &pool_key, &program));
    let mut p = pool(Q64 + Q64 / 10);
    let outcome = try_pre_swap_shield(
        &mut p, &oracle(), &mut a, &pool_key, &program, Some(110), 130, Some(Q64),
    );
    assert!(!outcome.unwrap().swept);
    assert_eq!(p.sqrt_price_x64, Q64 + Q64 / 10);

    let mut a = Some(account(config(), &pool_key, &program));
    let mut p = pool(u128::MAX);
    let outcome = try_pre_swap_shield(
        &mut p, &oracle(), &mut a, &pool_key, &program, Some(110), 130, Some(1),
    );
    assert!(!outcome.unwrap().swept);
    assert_eq!(p.sqrt_price_x64, u128::MAX);

    let mut c = config();
    c.twap_window_seconds = u32::MAX;
    let mut a = Some(account(c, &pool_key, &program));
    let outcome = try_pre_swap_shield(
        &mut pool(Q64), &oracle(), &mut a, &pool_key, &program, Some(110), 130, Some(Q64),
    );
    assert!(!outcome.unwrap().swept);
}

#[test]
fn liquidity_in_the_slot_of_a_swap_is_suspected() {
    let mut p = pool(Q64);
    assert!(!is_suspected_backrun(&p, 50));
    record_swap_slot(&mut p, 50);
    assert_eq!(p.open_time, 50);
    assert!(is_suspected_backrun(&p, 50));
    assert!(!is_suspected_backrun(&p, 51));
}
