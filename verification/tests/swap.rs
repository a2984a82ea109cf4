use nebula::amm::error::ErrorCode;
use nebula::amm::instructions::nebula_shield::{arb_config_address, is_suspected_backrun};
use nebula::amm::instructions::swap_steps::{
    advance, question, start, take_fee, SwapAnswer, SwapQuestion, SwapSetting, SwapStage, SwapStep,
};
use nebula::amm::instructions::swap_v2::{
    attribute_tax, calculate_specified, check_addresses, check_pool, check_slippage, conclude,
    exact_internal_v2, plan_call, route_remaining_accounts, settle, settlement_fee_queries,
    specified_fee_query, swap_at, swap_v2, FeeQuery, FeeSource, HostReplies, PriceBounds,
    RemainingAccount, RouteKeys, SwapDone, SwapInternalResult, SwapRequest, SwapSingleV2,
    TokenBalance, Vault, SWAP_MEMO_MSG,
};
use nebula::amm::states::nebula_shield::ArbConfig;
use nebula::amm::states::oracle::{Observation, ObservationState};
use nebula::amm::states::pool::PoolState;
use nebula::keys::Pubkey;

const Q64: u128 = 1 << 64;

fn key(n: u8) -> Pubkey {
    Pubkey { bytes: [n; 32] }
}

fn accounts() -> SwapSingleV2 {
    SwapSingleV2 {
        payer: key(50),
        amm_config: key(1),
        pool_key: key(40),
        pool_state: PoolState {
            amm_config: key(1),
            observation_key: key(2),
            token_mint_0: key(3),
            token_vault_0: key(4),
            token_vault_1: key(5),
            liquidity: 1_000_000_000_000,
            sqrt_price_x64: Q64,
            tick_current: 0,
            protocol_fees_token_0: 0,
            protocol_fees_token_1: 0,
            open_time: 0,
            padding1: 0,
        },
        input_token_account: TokenBalance { key: key(60), amount: 5000 },
        output_token_account: TokenBalance { key: key(61), amount: 100 },
        input_vault: Vault { key: key(4), mint: key(3) },
        output_vault: Vault { key: key(5), mint: key(6) },
        observation_key: key(2),
        observation_state: ObservationState {
            observation_index: 3,
            observations: vec![
                Observation { block_timestamp: 100, tick_cumulative: 0 },
                Observation { block_timestamp: 110, tick_cumulative: 50 },
                Observation { block_timestamp: 128, tick_cumulative: 230 },
                Observation { block_timestamp: 0, tick_cumulative: 0 },
            ],
        },
        input_vault_mint: key(3),
        output_vault_mint: key(6),
    }
}

/// The same pool, entered from the other side.
fn mirrored() -> SwapSingleV2 {
    let mut ctx = accounts();
    ctx.input_vault = Vault { key: key(5), mint: key(6) };
    ctx.output_vault = Vault { key: key(4), mint: key(3) };
    ctx.input_vault_mint = key(6);
    ctx.output_vault_mint = key(3);
    ctx
}

fn swapped(amount_0: u64, amount_1: u64, sqrt_price_x64: u128) -> SwapInternalResult {
    SwapInternalResult {
        amount_0,
        amount_1,
        sqrt_price_x64,
        liquidity: 77,
        tick: -5,
        trade_fee_0: 8,
        trade_fee_1: 9,
    }
}

fn replies(result: SwapInternalResult) -> HostReplies {
    let mut pool_after = accounts().pool_state;
    pool_after.sqrt_price_x64 = result.sqrt_price_x64;
    HostReplies {
        block_timestamp: 130,
        program_id: key(41),
        bitmap_extension: key(70),
        tick_array_len: 100,
        bounds: PriceBounds { min_sqrt_price_x64: 4_295_048_016, max_sqrt_price_x64: u128::MAX },
        specified_fee: Ok(0),
        loaded: Ok(()),
        slot: Some(200),
        sweep_price: None,
        sweep_tick: None,
        tax_price: None,
        walk: Ok((result, pool_after)),
        fee_0: Ok(0),
        fee_1: Ok(0),
        moved: Ok(()),
        input_balance: 4000,
        output_balance: 1000,
    }
}

fn swap(
    ctx: &mut SwapSingleV2,
    remaining: &Vec<RemainingAccount>,
    amount: u64,
    limit: u128,
    is_base_input: bool,
    replies: &HostReplies,
) -> Result<SwapDone, ErrorCode> {
    exact_internal_v2(ctx, remaining, amount, limit, is_base_input, replies).unwrap()
}

fn limited(
    ctx: &mut SwapSingleV2,
    remaining: &Vec<RemainingAccount>,
    amount: u64,
    threshold: u64,
    limit: u128,
    is_base_input: bool,
    replies: &HostReplies,
) -> Result<SwapDone, ErrorCode> {
    swap_v2(ctx, remaining, amount, threshold, limit, is_base_input, replies).unwrap()
}

fn config_key() -> Pubkey {
    arb_config_address(&key(40), &key(41)).unwrap()
}

fn config() -> ArbConfig {
    ArbConfig {
        pool: key(40),
        arb_authority: key(10),
        treasury: key(11),
        min_spread_bps: 50,
        treasury_share_bps: 2000,
        twap_window_seconds: 15,
        min_sweep_amount: 1000,
        max_sweep_amount: 100_000_000_000,
        last_sweep_slot: 100,
        cooldown_slots: 10,
        total_profit_captured_a: 0,
        total_profit_captured_b: 0,
        enabled: false,
        bump: 255,
        manipulation_tax_bps: 9000,
        manipulation_tax_collected_a: 0,
        manipulation_tax_collected_b: 0,
        manipulation_detections: 0,
        manipulation_threshold_bps: 0,
    }
}

fn remaining(key: Pubkey, data_len: usize) -> RemainingAccount {
    RemainingAccount { key, owner: Pubkey { bytes: [41; 32] }, data_len, arb_config: None }
}

#[test]
fn exact_input_swap_returns_what_was_received() {
    let mut ctx = accounts();
    let done = limited(
        &mut ctx, &vec![], 1000, 900, 0, true, &replies(swapped(1000, 900, Q64 - 10)),
    )
    .unwrap();
    assert_eq!(done.amount_result, 900);
    assert_eq!(done.deposit, 1000);
    assert_eq!(done.payout, 900);
    assert_eq!(done.call.amount, 1000);
    assert_eq!(done.call.sqrt_price_limit_x64, 4_295_048_017);
    assert!(done.call.zero_for_one);
    assert!(done.event.token_account_0 == key(60));
    assert!(done.event.token_account_1 == key(61));
    assert_eq!((done.event.amount_0, done.event.amount_1), (1000, 900));
    assert_eq!((done.event.liquidity, done.event.tick), (77, -5));
    assert_eq!(ctx.input_token_account.amount, 4000);
    assert_eq!(ctx.output_token_account.amount, 1000);
    assert_eq!(ctx.pool_state.sqrt_price_x64, Q64 - 10);
    assert!(is_suspected_backrun(&ctx.pool_state, 200));
}

#[test]
fn exact_output_swap_returns_what_was_paid() {
    let mut ctx = accounts();
    let done = limited(
        &mut ctx, &vec![], 900, 1000, 0, false, &replies(swapped(1000, 900, Q64 - 10)),
    )
    .unwrap();
    assert_eq!(done.amount_result, 1000);
    assert_eq!(done.payout, 900);
    assert!(!done.call.is_base_input);
}

#[test]
fn swap_from_the_other_side_mirrors_accounts_and_prices() {
    let mut ctx = mirrored();
    let done = swap(
        &mut ctx, &vec![], 1000, 0, true, &replies(swapped(900, 1000, Q64 + 10)),
    )
    .unwrap();
    assert!(!done.call.zero_for_one);
    assert_eq!(done.call.sqrt_price_limit_x64, u128::MAX - 1);
    assert!(done.event.token_account_0 == key(61));
    assert_eq!((done.deposit, done.payout), (1000, 900));
    let refused = swap(
        &mut mirrored(), &vec![], 1000, 0, true, &replies(swapped(900, 1000, Q64 - 10)),
    );
    assert_eq!(refused.unwrap_err(), ErrorCode::RequireGteViolated);
}

#[test]
fn slippage_is_refused_and_changes_nothing() {
    let mut ctx = accounts();
    let outcome = limited(
        &mut ctx, &vec![], 1000, 901, 0, true, &replies(swapped(1000, 900, Q64 - 10)),
    );
    assert_eq!(outcome.unwrap_err(), ErrorCode::TooLittleOutputReceived);
    assert_eq!(ctx.pool_state.sqrt_price_x64, Q64);
    assert_eq!(ctx.input_token_account.amount, 5000);
    assert_eq!(ctx.output_token_account.amount, 100);
    let outcome = limited(
        &mut ctx, &vec![], 900, 999, 0, false, &replies(swapped(1000, 900, Q64 - 10)),
    );
    assert_eq!(outcome.unwrap_err(), ErrorCode::TooMuchInputPaid);
    assert_eq!(check_slippage(5, 5, true), Ok(()));
    assert_eq!(check_slippage(5, 5, false), Ok(()));
}

#[test]
fn swap_without_limit_is_not_filled_in_part() {
    let outcome = swap(
        &mut accounts(), &vec![], 1000, 0, true, &replies(swapped(999, 900, Q64 - 10)),
    );
    assert_eq!(outcome.unwrap_err(), ErrorCode::RequireEqViolated);
    let outcome = swap(
        &mut accounts(), &vec![], 1000, Q64 - 10, true, &replies(swapped(999, 900, Q64 - 10)),
    );
    let done = outcome.unwrap();
    assert_eq!(done.deposit, 999);
    assert_eq!(done.call.sqrt_price_limit_x64, Q64 - 10);
}

#[test]
fn price_against_the_swap_is_refused() {
    let outcome = swap(
        &mut accounts(), &vec![], 1000, 0, true, &replies(swapped(1000, 900, Q64 + 1)),
    );
    assert_eq!(outcome.unwrap_err(), ErrorCode::RequireGteViolated);
}

#[test]
fn accounts_of_a_swap_are_checked() {
    let r = replies(swapped(1000, 900, Q64));
    let mut ctx = accounts();
    ctx.amm_config = key(99);
    assert_eq!(check_addresses(&ctx), Err(ErrorCode::ConstraintAddress));
    assert_eq!(
        swap(&mut ctx, &vec![], 1000, 0, true, &r).unwrap_err(),
        ErrorCode::ConstraintAddress
    );
    for i in 0..3 {
        let mut ctx = accounts();
        if i == 0 {
            ctx.observation_key = key(99);
        } else if i == 1 {
            ctx.input_vault_mint = key(99);
        } else {
            ctx.output_vault_mint = key(99);
        }
        assert_eq!(check_addresses(&ctx), Err(ErrorCode::ConstraintAddress));
    }
    let mut ctx = accounts();
    ctx.pool_state.padding1 = 130;
    assert_eq!(check_pool(&ctx, 130), Err(ErrorCode::RequireGtViolated));
    assert_eq!(check_pool(&ctx, 131), Ok(true));
    ctx.output_vault.key = key(99);
    assert_eq!(check_pool(&ctx, 131), Err(ErrorCode::InvalidInputPoolVault));
    assert_eq!(check_pool(&mirrored(), 131), Ok(false));
}

#[test]
fn refusals_of_the_host_are_passed_on() {
    let base = replies(swapped(1000, 900, Q64 - 10));
    let error = ErrorCode::PriceOutOfRange;
    let mut all = vec![base; 6];
    all[0].specified_fee = Err(error);
    all[1].loaded = Err(error);
    all[2].walk = Err(error);
    all[3].fee_1 = Err(error);
    all[4].moved = Err(error);
    all[5].fee_0 = Err(error);
    for (i, r) in all.iter().enumerate() {
        let mut ctx = accounts();
        let outcome = swap(&mut ctx, &vec![], 1000, 0, true, r);
        if i == 5 {
            // The fee on the amount paid is known: the mint is not asked again.
            assert!(outcome.is_ok());
        } else {
            assert_eq!(outcome.unwrap_err(), error);
            assert_eq!(ctx.pool_state.sqrt_price_x64, Q64);
        }
    }
}

#[test]
fn nothing_swapped_on_one_side_is_refused() {
    for result in [swapped(0, 900, Q64), swapped(1000, 0, Q64)] {
        let outcome = swap(&mut accounts(), &vec![], 1000, 0, true, &replies(result));
        assert_eq!(outcome.unwrap_err(), ErrorCode::TooSmallInputOrOutputAmount);
    }
}

#[test]
fn transfer_fees_are_paid_by_the_user() {
    let mut ctx = accounts();
    let mut r = replies(swapped(990, 900, Q64 - 10));
    r.specified_fee = Ok(10);
    r.fee_1 = Ok(9);
    let done = swap(&mut ctx, &vec![], 1000, 0, true, &r).unwrap();
    assert_eq!(done.call.amount, 990);
    assert_eq!((done.deposit, done.payout), (1000, 900));
    assert_eq!((done.event.amount_0, done.event.transfer_fee_0), (990, 10));
    assert_eq!((done.event.amount_1, done.event.transfer_fee_1), (891, 9));
}

#[test]
fn fees_beyond_the_amounts_are_refused() {
    let mut r = replies(swapped(1000, 900, Q64 - 10));
    r.fee_1 = Ok(901);
    assert_eq!(
        swap(&mut accounts(), &vec![], 1000, 0, true, &r).unwrap_err(),
        ErrorCode::CalculateOverflow
    );
    assert_eq!(
        settle(&swapped(u64::MAX, 900, Q64), 1, 0, true).unwrap_err(),
        ErrorCode::CalculateOverflow
    );
    assert_eq!(
        settle(&swapped(5, 900, Q64), 6, 0, false).unwrap_err(),
        ErrorCode::CalculateOverflow
    );
    let settled = settle(&swapped(5, 900, Q64), 2, 3, false).unwrap();
    assert_eq!(settled.transfers(false), (903, 5));
    assert_eq!((settled.amount_0_without_fee, settled.amount_1_without_fee), (3, 900));
}

#[test]
fn balance_that_went_the_wrong_way_is_refused() {
    let mut r = replies(swapped(1000, 900, Q64 - 10));
    r.output_balance = 99;
    assert_eq!(
        swap(&mut accounts(), &vec![], 1000, 0, true, &r).unwrap_err(),
        ErrorCode::CalculateOverflow
    );
    r.input_balance = 5001;
    assert_eq!(
        swap(&mut accounts(), &vec![], 900, 0, false, &r).unwrap_err(),
        ErrorCode::CalculateOverflow
    );
}

#[test]
fn fee_questions_follow_the_direction() {
    let request = SwapRequest { amount_specified: 1000, sqrt_price_limit_x64: 0, is_base_input: true };
    assert!(matches!(
        specified_fee_query(&accounts(), &request),
        FeeQuery::TransferFee { mint, amount: 1000 } if mint == key(3)
    ));
    let exact_out = SwapRequest { is_base_input: false, ..request };
    assert!(matches!(
        specified_fee_query(&accounts(), &exact_out),
        FeeQuery::InverseFee { mint, amount: 1000 } if mint == key(6)
    ));
    assert_eq!(calculate_specified(&request, 10), 990);
    assert_eq!(calculate_specified(&exact_out, 10), 1010);

    let result = swapped(990, 900, Q64);
    let (fee_0, fee_1) = settlement_fee_queries(&accounts(), &request, 990, 10, &result, true);
    assert!(matches!(fee_0, FeeSource::Known(10)));
    assert!(matches!(
        fee_1,
        FeeSource::Ask(FeeQuery::TransferFee { mint, amount: 900 }) if mint == key(6)
    ));
    let (fee_0, _) = settlement_fee_queries(&accounts(), &request, 991, 10, &result, true);
    assert!(matches!(
        fee_0,
        FeeSource::Ask(FeeQuery::InverseFee { mint, amount: 990 }) if mint == key(3)
    ));
    let (fee_0, fee_1) = settlement_fee_queries(&mirrored(), &request, 900, 10, &result, false);
    assert!(matches!(
        fee_0,
        FeeSource::Ask(FeeQuery::TransferFee { mint, amount: 990 }) if mint == key(3)
    ));
    assert!(matches!(fee_1, FeeSource::Known(10)));
}

#[test]
fn remaining_accounts_are_told_apart() {
    let keys = RouteKeys { bitmap_extension: key(70), arb_config: key(71), tick_array_len: 100 };
    let accounts = vec![
        remaining(key(80), 100),
        remaining(key(70), 7),
        remaining(key(71), 8),
        remaining(key(81), 100),
        remaining(key(82), 99),
        remaining(key(83), 100),
        remaining(key(70), 7),
    ];
    let routing = route_remaining_accounts(&accounts, &keys);
    assert_eq!(routing.bitmap_extension, Some(1));
    assert_eq!(routing.arb_config, Some(2));
    assert_eq!(routing.tick_arrays, vec![0, 3]);
    let twice = vec![remaining(key(70), 7), remaining(key(71), 7), remaining(key(70), 7)];
    let routing = route_remaining_accounts(&twice, &keys);
    assert_eq!(routing.bitmap_extension, Some(2));
    let routing = route_remaining_accounts(&vec![], &keys);
    assert_eq!((routing.bitmap_extension, routing.arb_config), (None, None));
    assert!(routing.tick_arrays.is_empty());
}

#[test]
fn manipulated_swap_pays_in_full_and_swaps_the_rest() {
    let mut ctx = accounts();
    ctx.pool_state.sqrt_price_x64 = Q64 + Q64 / 10;
    let accounts = vec![RemainingAccount { arb_config: Some(config()), ..remaining(config_key(), 8) }];
    let mut r = replies(swapped(100, 90, Q64));
    r.tax_price = Some(Q64);
    let done = swap(&mut ctx, &accounts, 1000, 0, true, &r).unwrap();
    assert_eq!(done.tax.tax_amount, 900);
    assert_eq!(done.call.amount, 100);
    assert_eq!(done.shielded_pool.protocol_fees_token_0, 900);
    assert_eq!(done.shielded_pool.sqrt_price_x64, Q64 + Q64 / 10);
    assert_eq!(done.deposit, 1000);
    assert_eq!(done.event.amount_0, 1000);
    let after = done.arb_account.unwrap().config.unwrap();
    assert_eq!(after.manipulation_tax_collected_a, 900);
    assert_eq!(after.manipulation_detections, 1);

    // A swap that names what it receives is not taxed.
    let mut ctx = self::accounts();
    ctx.pool_state.sqrt_price_x64 = Q64 + Q64 / 10;
    let done = swap(&mut ctx, &accounts, 90, 0, false, &r).unwrap();
    assert_eq!(done.tax.tax_amount, 0);
    assert_eq!(done.call.amount, 90);
}

#[test]
fn sweep_comes_before_the_price_check() {
    let mut ctx = accounts();
    ctx.pool_state.sqrt_price_x64 = Q64 + Q64 / 10;
    let mut swept = config();
    swept.enabled = true;
    let accounts = vec![RemainingAccount { arb_config: Some(swept), ..remaining(config_key(), 8) }];
    let mut r = replies(swapped(1000, 900, 18_815_678_955_202_189_392));
    r.sweep_price = Some(Q64);
    r.sweep_tick = Some(395);
    let done = swap(&mut ctx, &accounts, 1000, 0, true, &r).unwrap();
    assert!(done.sweep.swept);
    assert_eq!(done.shielded_pool.sqrt_price_x64, 18_815_678_955_202_189_392);
    assert_eq!(done.shielded_pool.tick_current, 395);
    assert_eq!(done.arb_account.unwrap().config.unwrap().last_sweep_slot, 200);
    let mut ctx = self::accounts();
    ctx.pool_state.sqrt_price_x64 = Q64 + Q64 / 10;
    let mut r = replies(swapped(1000, 900, 18_815_678_955_202_189_393));
    r.sweep_price = Some(Q64);
    let outcome = swap(&mut ctx, &accounts, 1000, 0, true, &r);
    assert_eq!(outcome.unwrap_err(), ErrorCode::RequireGteViolated);
}

#[test]
fn steps_of_a_swap() {
    let request = SwapRequest { amount_specified: 1000, sqrt_price_limit_x64: 0, is_base_input: true };
    let bounds = PriceBounds { min_sqrt_price_x64: 10, max_sqrt_price_x64: 99 };
    let call = plan_call(&request, 1000, 900, false, &bounds);
    assert_eq!((call.amount, call.sqrt_price_limit_x64), (100, 98));
    let result = attribute_tax(&swapped(100, 90, Q64), 900, false).unwrap();
    assert_eq!((result.amount_0, result.amount_1), (100, 990));
    let settled = settle(&swapped(1000, 900, Q64), 0, 0, true).unwrap();
    let ended = conclude(&accounts(), &request, 1000, true, Q64, Q64, &settled, 4000, 1000);
    assert_eq!(ended, Ok(900));
    assert_eq!(&SWAP_MEMO_MSG, b"raydium_swap");
}

#[test]
fn swap_has_no_outcome_where_numbers_leave_their_types() {
    let mut r = replies(swapped(1000, 900, Q64 - 10));
    r.specified_fee = Ok(1001);
    let mut ctx = accounts();
    assert!(exact_internal_v2(&mut ctx, &vec![], 1000, 0, true, &r).is_none());
    assert!(exact_internal_v2(&mut ctx, &vec![], u64::MAX, 0, false, &r).is_none());
    assert!(swap_v2(&mut ctx, &vec![], 1000, 0, 0, true, &r).is_none());
    assert_eq!(ctx.pool_state.sqrt_price_x64, Q64);
}

#[test]
fn no_configuration_of_the_shield_stops_a_swap() {
    let r = replies(swapped(1000, 900, Q64 - 10));
    let mut longest = config();
    longest.enabled = true;
    longest.cooldown_slots = u64::MAX;
    let mut widest = config();
    widest.enabled = true;
    widest.twap_window_seconds = u32::MAX;
    for configured in [longest, widest, ArbConfig::default()] {
        let found =
            vec![RemainingAccount { arb_config: Some(configured), ..remaining(config_key(), 8) }];
        let done = exact_internal_v2(&mut accounts(), &found, 1000, 0, true, &r).unwrap();
        assert_eq!(done.unwrap().amount_result, 900);
    }
    // An account at another address is not the configuration of the pool.
    let elsewhere =
        vec![RemainingAccount { arb_config: Some(longest), ..remaining(key(71), 8) }];
    assert!(exact_internal_v2(&mut accounts(), &elsewhere, 1000, 0, true, &r).unwrap().is_ok());
}

#[test]
fn swap_with_a_given_configuration_address() {
    let request = SwapRequest { amount_specified: 1000, sqrt_price_limit_x64: 0, is_base_input: true };
    let mut ctx = accounts();
    ctx.pool_state.sqrt_price_x64 = Q64 + Q64 / 10;
    let mut r = replies(swapped(100, 90, Q64));
    r.tax_price = Some(Q64);
    let remaining = vec![RemainingAccount { arb_config: Some(config()), ..remaining(key(71), 8) }];
    let done = swap_at(&mut ctx, &remaining, &request, &r, &key(71)).unwrap();
    assert_eq!(done.tax.tax_amount, 900);
}

/// Runs a swap step by step with a host that gives these answers, and counts the questions.
fn stepped(
    ctx: &SwapSingleV2,
    remaining: &Vec<RemainingAccount>,
    request: SwapRequest,
    r: &HostReplies,
) -> (Option<Result<SwapDone, ErrorCode>>, usize) {
    let setting = SwapSetting {
        request,
        block_timestamp: r.block_timestamp,
        slot: r.slot,
        program_id: r.program_id,
        keys: RouteKeys {
            bitmap_extension: r.bitmap_extension,
            arb_config: config_key(),
            tick_array_len: r.tick_array_len,
        },
        bounds: r.bounds,
    };
    let mut step = start(ctx);
    let mut asked = 0;
    loop {
        let stage = match step {
            SwapStep::Ask(stage) => stage,
            SwapStep::Done(done) => return (Some(Ok(done)), asked),
            SwapStep::Refused(error) => return (Some(Err(error)), asked),
            SwapStep::NoOutcome => return (None, asked),
        };
        asked += 1;
        let answer = match question(ctx, &setting, &stage) {
            SwapQuestion::SpecifiedFee(_) => r.specified_fee.map(SwapAnswer::Fee),
            SwapQuestion::TickArrays => r.loaded.map(|_| SwapAnswer::Loaded),
            SwapQuestion::SweepPrice(_) => Ok(SwapAnswer::Price(r.sweep_price)),
            SwapQuestion::SweptTick(_) => Ok(SwapAnswer::Tick(r.sweep_tick)),
            SwapQuestion::TaxPrice(_) => Ok(SwapAnswer::Price(r.tax_price)),
            SwapQuestion::Walk { .. } => {
                r.walk.map(|(swapped, pool_after)| SwapAnswer::Walked { swapped, pool_after })
            }
            SwapQuestion::SettlementFees { fee_0, fee_1, .. } => {
                let of = |source: &FeeSource, fee: Result<u64, ErrorCode>| match source {
                    FeeSource::Known(_) => Ok(0),
                    FeeSource::Ask(_) => fee,
                };
                match (of(&fee_0, r.fee_0), of(&fee_1, r.fee_1)) {
                    (Ok(fee_0), Ok(fee_1)) => Ok(SwapAnswer::Fees { fee_0, fee_1 }),
                    (Err(error), _) => Err(error),
                    (_, Err(error)) => Err(error),
                }
            }
            SwapQuestion::Transfers { .. } => r
                .moved
                .map(|_| SwapAnswer::Balances { input: r.input_balance, output: r.output_balance }),
        };
        step = match answer {
            Ok(answer) => advance(ctx, remaining, &setting, &stage, &answer),
            Err(error) => SwapStep::Refused(error),
        };
    }
}

fn same_both_ways(
    ctx: &dyn Fn() -> SwapSingleV2,
    remaining: &Vec<RemainingAccount>,
    amount: u64,
    limit: u128,
    is_base_input: bool,
    r: &HostReplies,
) -> usize {
    let request =
        SwapRequest { amount_specified: amount, sqrt_price_limit_x64: limit, is_base_input };
    let (by_steps, asked) = stepped(&ctx(), remaining, request, r);
    let at_once = exact_internal_v2(&mut ctx(), remaining, amount, limit, is_base_input, r);
    assert_eq!(format!("{:?}", by_steps), format!("{:?}", at_once));
    asked
}

#[test]
fn steps_come_to_the_swap_as_a_whole() {
    let plain = replies(swapped(1000, 900, Q64 - 10));
    assert_eq!(same_both_ways(&accounts, &vec![], 1000, 0, true, &plain), 8);
    assert_eq!(same_both_ways(&accounts, &vec![], 900, 0, false, &plain), 8);
    assert_eq!(same_both_ways(&accounts, &vec![], 1001, 0, true, &plain), 8);
    let other = replies(swapped(900, 1000, Q64 + 10));
    assert_eq!(same_both_ways(&mirrored, &vec![], 1000, 0, true, &other), 8);
    let wrong = || {
        let mut ctx = accounts();
        ctx.observation_key = key(99);
        ctx
    };
    assert_eq!(same_both_ways(&wrong, &vec![], 1000, 0, true, &plain), 0);
    let closed = || {
        let mut ctx = accounts();
        ctx.input_vault.key = key(99);
        ctx
    };
    assert_eq!(same_both_ways(&closed, &vec![], 1000, 0, true, &plain), 1);
    assert_eq!(same_both_ways(&accounts, &vec![], 1000, 0, true, &replies(swapped(0, 9, Q64))), 6);
    let mut r = plain;
    r.specified_fee = Ok(1001);
    assert_eq!(same_both_ways(&accounts, &vec![], 1000, 0, true, &r), 1);
    r.specified_fee = Err(ErrorCode::CalculateOverflow);
    assert_eq!(same_both_ways(&accounts, &vec![], 1000, 0, true, &r), 1);
    let mut r = plain;
    r.loaded = Err(ErrorCode::InvalidTickIndex);
    assert_eq!(same_both_ways(&accounts, &vec![], 1000, 0, true, &r), 2);
    let mut r = plain;
    r.walk = Err(ErrorCode::ZeroLiquidity);
    assert_eq!(same_both_ways(&accounts, &vec![], 1000, 0, true, &r), 6);
    let mut r = plain;
    r.fee_1 = Err(ErrorCode::CalculateOverflow);
    assert_eq!(same_both_ways(&accounts, &vec![], 1000, 0, true, &r), 7);
    r.fee_1 = Ok(901);
    assert_eq!(same_both_ways(&accounts, &vec![], 1000, 0, true, &r), 7);
    let mut r = plain;
    r.moved = Err(ErrorCode::NotSender);
    assert_eq!(same_both_ways(&accounts, &vec![], 1000, 0, true, &r), 8);
}

#[test]
fn steps_of_a_shielded_swap() {
    let dear = || {
        let mut ctx = accounts();
        ctx.pool_state.sqrt_price_x64 = Q64 + Q64 / 10;
        ctx
    };
    let mut r = replies(swapped(100, 90, Q64));
    r.tax_price = Some(Q64);
    r.sweep_price = Some(Q64);
    r.sweep_tick = Some(7);
    let mut sweeping = config();
    sweeping.enabled = true;
    for configured in [config(), sweeping] {
        let found =
            vec![RemainingAccount { arb_config: Some(configured), ..remaining(config_key(), 8) }];
        for (amount, is_base_input) in [(1000, true), (90, false)] {
            same_both_ways(&dear, &found, amount, 0, is_base_input, &r);
        }
    }
}

#[test]
fn answers_belong_to_their_questions() {
    let r = replies(swapped(1000, 900, Q64 - 10));
    let setting = SwapSetting {
        request: SwapRequest {
            amount_specified: 1000,
            sqrt_price_limit_x64: 0,
            is_base_input: true,
        },
        block_timestamp: r.block_timestamp,
        slot: r.slot,
        program_id: r.program_id,
        keys: RouteKeys {
            bitmap_extension: r.bitmap_extension,
            arb_config: config_key(),
            tick_array_len: r.tick_array_len,
        },
        bounds: r.bounds,
    };
    let ctx = accounts();
    assert!(matches!(
        question(&ctx, &setting, &SwapStage::Checked),
        SwapQuestion::SpecifiedFee(FeeQuery::TransferFee { amount: 1000, .. })
    ));
    assert!(matches!(
        advance(&ctx, &vec![], &setting, &SwapStage::Checked, &SwapAnswer::Loaded),
        SwapStep::NoOutcome
    ));
    assert_eq!(take_fee(&FeeSource::Known(3), 4), 3);
    let query = FeeQuery::TransferFee { mint: key(1), amount: 5 };
    assert_eq!(take_fee(&FeeSource::Ask(query), 4), 4);
}
