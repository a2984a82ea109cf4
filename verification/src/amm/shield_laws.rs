//! What the sweeps and the tax of a pool do, in terms of prices, amounts and counters.
use vstd::prelude::*;

use crate::amm::error::ErrorCode;
use crate::amm::instructions::arb_sweep::ArbSweep;
#[allow(unused_imports)]
use crate::amm::instructions::arb_sweep::{
    accounts_error, config_after, parameters_error, pool_after, reference, sweep_event,
    ArbSweepEvent,
};
#[allow(unused_imports)]
use crate::amm::instructions::nebula_shield::{
    config_address, config_after_detection, config_after_sweep, config_after_tax, manipulated,
    pool_after_sweep, pool_after_tax, report_of, shield_effect, slot_recorded, suspected,
    sweep_against, sweep_made, sweep_with_account, tax_due, tax_effect, treasury_share,
    trusted_config,
};
use crate::amm::instructions::nebula_shield::{ArbAccount, Sweep};
use crate::amm::states::nebula_shield::ArbConfig;
use crate::amm::states::oracle::ObservationState;
use crate::amm::states::pool::PoolState;
use crate::keys::Pubkey;
#[allow(unused_imports)]
use crate::keys::program_address;
#[allow(unused_imports)]
use crate::pricing::{
    arb_output, dear_pool_pays_no_profit_in_token_a, deviation,
    deviation_is_the_gap_in_basis_points, immeasurable_gap_is_the_widest, lemma_bracket,
    lemma_floor, sweep_moves_price_by_its_amount, sweep_size,
};

verus! {

// The sweep.
/// A whole number of basis points is in a gap exactly where that part of the base fits into it.
proof fn lemma_at_least(n: int, d: int, q: int)
    requires
        d > 0,
    ensures
        n / d >= q <==> n >= q * d,
{
    lemma_bracket(n, d);
    assert(n / d >= q <==> n >= q * d) by (nonlinear_arith)
        requires
            d > 0,
            (n / d) * d <= n < (n / d + 1) * d,
    ;
}

/// A pool whose price is `gap` away from its average is swept exactly where that is at least the
/// configured part of the average and the sweep gains something; token A is paid in where the price
/// is above, and token B where it is below.
pub proof fn sweep_answers_the_gap(pool: PoolState, config: ArbConfig, average: u128, gap: int)
    requires
        gap >= 0,
        pool.sqrt_price_x64 == average + gap || pool.sqrt_price_x64 == average - gap,
        average > 0,
    ensures
        ({
            let spot = pool.sqrt_price_x64 as int;
            let measured = if gap * 10_000 > u128::MAX {
                u128::MAX as int
            } else {
                gap * 10_000
            };
            let size = sweep_size(
                spot,
                average as int,
                pool.liquidity as int,
                config.min_sweep_amount as int,
                config.max_sweep_amount as int,
            );
            let paid = arb_output(spot, pool.liquidity as int, size, spot > average);
            &&& sweep_against(pool, config, average) is Some <==> {
                &&& measured >= config.min_spread_bps * average
                &&& gap * 4 <= u128::MAX
                &&& size > 0
                &&& paid > size
            }
            &&& sweep_against(pool, config, average) matches Some(sweep) ==> {
                &&& sweep.a_to_b == (spot > average)
                &&& sweep.amount == size
                &&& sweep.amount + sweep.profit == paid
                &&& sweep.spread_bps * average <= measured < (sweep.spread_bps + 1) * average
            }
        }),
{
    let spot = pool.sqrt_price_x64 as int;
    let base = average as int;
    let size = sweep_size(
        spot,
        base,
        pool.liquidity as int,
        config.min_sweep_amount as int,
        config.max_sweep_amount as int,
    );
    if gap * 10_000 > u128::MAX {
        immeasurable_gap_is_the_widest(base, gap, base);
        lemma_at_least(u128::MAX as int, base, config.min_spread_bps as int);
    } else {
        deviation_is_the_gap_in_basis_points(base, gap, base);
        lemma_at_least(gap * 10_000, base, config.min_spread_bps as int);
    }
    lemma_size_not_negative(pool, config, average);
}

/// The amount of a sweep is a token amount.
proof fn lemma_size_not_negative(pool: PoolState, config: ArbConfig, average: u128)
    ensures
        0 <= sweep_size(
            pool.sqrt_price_x64 as int,
            average as int,
            pool.liquidity as int,
            config.min_sweep_amount as int,
            config.max_sweep_amount as int,
        ) <= config.max_sweep_amount,
{
}

/// A pool that has no average price is not swept, unless any spread will do.
pub proof fn no_sweep_against_nothing(pool: PoolState, config: ArbConfig)
    requires
        config.min_spread_bps > 0,
    ensures
        sweep_against(pool, config, 0) is None,
{
}

/// A pool below its average, at a price of at least one, is never swept: paying in token B there
/// gains nothing.
pub proof fn dear_pool_is_not_swept_up(pool: PoolState, config: ArbConfig, average: u128)
    requires
        pool.sqrt_price_x64 >= 0x1_0000_0000_0000_0000,
        pool.sqrt_price_x64 <= average,
    ensures
        sweep_against(pool, config, average) is None,
{
    let spot = pool.sqrt_price_x64 as int;
    let size = sweep_size(
        spot,
        average as int,
        pool.liquidity as int,
        config.min_sweep_amount as int,
        config.max_sweep_amount as int,
    );
    lemma_size_not_negative(pool, config, average);
    lemma_bracket(spot, 0x1_0000_0000_0000_0000);
    dear_pool_pays_no_profit_in_token_a(
        spot,
        pool.liquidity as int,
        size,
        spot / 0x1_0000_0000_0000_0000,
    );
}

/// A sweep before a swap waits for its configuration to be on, for the slots of its cooldown, for
/// three observations, and for an average over its window; then it is the sweep against the price
/// of that average.
pub proof fn sweep_waits_its_turn(
    pool: PoolState,
    config: ArbConfig,
    oracle: &ObservationState,
    slot: u64,
    now: u32,
    price: Option<u128>,
)
    ensures
        ({
            let ready = {
                &&& config.enabled
                &&& slot >= config.last_sweep_slot + config.cooldown_slots
                &&& oracle.observation_index >= 3
                &&& oracle.twap(config.twap_window_seconds, now) is Some
                &&& price is Some
            };
            &&& ready ==> sweep_made(pool, config, oracle, slot, now, price) == sweep_against(
                pool,
                config,
                price->0,
            )
            &&& !ready ==> sweep_made(pool, config, oracle, slot, now, price) is None
        }),
{
}

/// The treasury share of a profit is the configured part of it, cut to a token amount.
pub proof fn treasury_share_is_the_configured_part(config: ArbConfig, profit: u64, part: int)
    requires
        part * 10_000 <= profit * config.treasury_share_bps < (part + 1) * 10_000,
    ensures
        treasury_share(config, profit) == part % 0x1_0000_0000_0000_0000,
        config.treasury_share_bps <= 10_000 ==> treasury_share(config, profit) == part <= profit,
{
    let product = profit * config.treasury_share_bps;
    lemma_floor(product, 10_000, part);
    assert(product >= 0) by (nonlinear_arith)
        requires
            product == profit * config.treasury_share_bps,
            profit >= 0,
            config.treasury_share_bps >= 0,
    ;
    if config.treasury_share_bps <= 10_000 {
        assert(product <= profit * 10_000) by (nonlinear_arith)
            requires
                product == profit * config.treasury_share_bps,
                0 <= config.treasury_share_bps <= 10_000,
                profit >= 0,
        ;
    }
}

/// After a sweep the pool stands at the price that its amount moved it to, and holds the treasury
/// share among the fees of the token that was paid out: the second where the price was above its
/// average, the first where not. Nothing else of it changes.
pub proof fn sweep_changes_price_and_one_fee(
    pool: PoolState,
    config: ArbConfig,
    sweep: Sweep,
    moved: int,
)
    requires
        if pool.liquidity == 0 {
            moved == sweep.amount * 0x1_0000_0000_0000_0000
        } else {
            moved * pool.liquidity <= sweep.amount * 0x1_0000_0000_0000_0000 < (moved + 1)
                * pool.liquidity
        },
    ensures
        ({
            let after = pool_after_sweep(pool, config, sweep);
            let share = treasury_share(config, sweep.profit);
            let before = pool.sqrt_price_x64;
            &&& sweep.a_to_b ==> after.sqrt_price_x64 == (if moved > before {
                0
            } else {
                before - moved
            })
            &&& !sweep.a_to_b ==> after.sqrt_price_x64 == (if before + moved > u128::MAX {
                u128::MAX as int
            } else {
                before + moved
            })
            &&& after.protocol_fees_token_0 == (if sweep.a_to_b {
                pool.protocol_fees_token_0 as int
            } else if pool.protocol_fees_token_0 + share > u64::MAX {
                u64::MAX as int
            } else {
                pool.protocol_fees_token_0 + share
            })
            &&& after.protocol_fees_token_1 == (if !sweep.a_to_b {
                pool.protocol_fees_token_1 as int
            } else if pool.protocol_fees_token_1 + share > u64::MAX {
                u64::MAX as int
            } else {
                pool.protocol_fees_token_1 + share
            })
            &&& after == (PoolState {
                sqrt_price_x64: after.sqrt_price_x64,
                protocol_fees_token_0: after.protocol_fees_token_0,
                protocol_fees_token_1: after.protocol_fees_token_1,
                ..pool
            })
        }),
{
    sweep_moves_price_by_its_amount(
        pool.sqrt_price_x64 as int,
        pool.liquidity as int,
        sweep.amount as int,
        moved,
    );
    if pool.liquidity > 0 {
        lemma_moved_not_negative(sweep.amount as int, pool.liquidity as int, moved);
    }
}

proof fn lemma_moved_not_negative(amount: int, liquidity: int, moved: int)
    requires
        amount >= 0,
        liquidity > 0,
        amount * 0x1_0000_0000_0000_0000 < (moved + 1) * liquidity,
    ensures
        moved >= 0,
{
    assert(moved >= 0) by (nonlinear_arith)
        requires
            amount >= 0,
            liquidity > 0,
            amount * 0x1_0000_0000_0000_0000 < (moved + 1) * liquidity,
    ;
}

/// A sweep books its profit in the token that was paid out, and its slot; nothing else of the
/// configuration changes.
pub proof fn sweep_books_its_profit(config: ArbConfig, sweep: Sweep, slot: u64)
    ensures
        ({
            let after = config_after_sweep(config, sweep, slot);
            &&& after.last_sweep_slot == slot
            &&& after.total_profit_captured_a == (if sweep.a_to_b {
                config.total_profit_captured_a as int
            } else if config.total_profit_captured_a + sweep.profit > u64::MAX {
                u64::MAX as int
            } else {
                config.total_profit_captured_a + sweep.profit
            })
            &&& after.total_profit_captured_b == (if !sweep.a_to_b {
                config.total_profit_captured_b as int
            } else if config.total_profit_captured_b + sweep.profit > u64::MAX {
                u64::MAX as int
            } else {
                config.total_profit_captured_b + sweep.profit
            })
            &&& after == (ArbConfig {
                last_sweep_slot: after.last_sweep_slot,
                total_profit_captured_a: after.total_profit_captured_a,
                total_profit_captured_b: after.total_profit_captured_b,
                ..config
            })
        }),
{
}

/// The report tells of a sweep what was swept, gained and on which side, with the low 16 bits of
/// its spread, and of none that nothing was swept.
pub proof fn report_tells_the_sweep(config: ArbConfig, sweep: Sweep, slot: u64)
    ensures
        !report_of(config, None, slot).swept,
        !report_of(config, None, slot).a_to_b,
        report_of(config, None, slot).profit == 0,
        report_of(config, None, slot).event is None,
        report_of(config, Some(sweep), slot).swept,
        report_of(config, Some(sweep), slot).a_to_b == sweep.a_to_b,
        report_of(config, Some(sweep), slot).profit == sweep.profit,
        report_of(config, Some(sweep), slot).event matches Some(event) && event.pool == config.pool
            && event.sweep_amount == sweep.amount && event.profit == sweep.profit && event.a_to_b
            == sweep.a_to_b && event.slot == slot && (sweep.spread_bps - event.spread_bps)
            % 0x1_0000 == 0,
{
}

/// The configuration that stands at the address of the pool and belongs to the program decides on
/// the sweep before a swap, and comes back with what the sweep booked; without a clock, or without
/// that configuration, nothing is swept and nothing changes.
pub proof fn own_configuration_decides_on_the_sweep(
    pool: PoolState,
    oracle: &ObservationState,
    account: ArbAccount,
    config: ArbConfig,
    expected: Pubkey,
    program_id: Pubkey,
    slot: u64,
    now: u32,
    price: Option<u128>,
)
    requires
        account.key == expected,
        account.owner == program_id,
        account.config == Some(config),
    ensures
        trusted_config(Some(account), expected, program_id) == Some(config),
        sweep_with_account(
            pool,
            oracle,
            Some(account),
            expected,
            program_id,
            Some(slot),
            now,
            price,
        ) == sweep_made(pool, config, oracle, slot, now, price),
        sweep_with_account(pool, oracle, Some(account), expected, program_id, None, now, price)
            is None,
        forall|sweep: Sweep| #[trigger]
            shield_effect(pool, Some(account), Some(sweep), Some(slot)) == (
                pool_after_sweep(pool, config, sweep),
                Some(
                    ArbAccount {
                        config: Some(config_after_sweep(config, sweep, slot)),
                        ..account
                    },
                ),
                report_of(config, Some(sweep), slot),
            ),
        shield_effect(pool, Some(account), None, Some(slot)).0 == pool,
        shield_effect(pool, Some(account), None, Some(slot)).1 == Some(account),
        !shield_effect(pool, Some(account), None, Some(slot)).2.swept,
        shield_effect(pool, Some(account), None, Some(slot)).2.event is None,
{
}

/// A swap without a configuration account is not swept.
pub proof fn no_account_no_sweep(
    pool: PoolState,
    oracle: &ObservationState,
    expected: Pubkey,
    program_id: Pubkey,
    slot: Option<u64>,
    now: u32,
    price: Option<u128>,
)
    ensures
        trusted_config(None, expected, program_id) is None,
        sweep_with_account(pool, oracle, None, expected, program_id, slot, now, price) is None,
{
}

/// The address of the configuration of a pool comes from the label `arb_config` and the pool.
pub proof fn configuration_stands_at_its_seeds(pool_key: Pubkey, program_id: Pubkey)
    ensures
        ({
            let label = seq![97u8, 114, 98, 95, 99, 111, 110, 102, 105, 103];
            match program_address(seq![label, pool_key.bytes@], program_id.bytes@) {
                Some((address, _)) => config_address(pool_key, program_id) matches Some(key)
                    && key.bytes == address,
                None => config_address(pool_key, program_id) is None,
            }
        }),
{
    let label = seq![97u8, 114, 98, 95, 99, 111, 110, 102, 105, 103];
    assert(crate::amm::instructions::nebula_shield::ARB_CONFIG_SEED@ =~= label);
}

// The tax.
/// With an average over five seconds and its price, a pool counts as manipulated exactly where its
/// price is further from that of the average than the threshold allows, above and below alike.
pub proof fn manipulation_is_a_gap_beyond_the_threshold(
    pool: PoolState,
    oracle: &ObservationState,
    now: u32,
    threshold: u16,
    average: u128,
    gap: int,
)
    requires
        gap >= 0,
        pool.sqrt_price_x64 == average + gap || pool.sqrt_price_x64 == average - gap,
        oracle.twap(5, now) is Some,
        average > 0,
    ensures
        gap * 10_000 <= u128::MAX ==> (manipulated(pool, oracle, now, threshold, Some(average))
            <==> gap * 10_000 >= (threshold + 1) * average),
        gap * 10_000 > u128::MAX ==> (manipulated(pool, oracle, now, threshold, Some(average))
            <==> u128::MAX >= (threshold + 1) * average),
{
    let base = average as int;
    if gap * 10_000 > u128::MAX {
        immeasurable_gap_is_the_widest(base, gap, base);
        lemma_at_least(u128::MAX as int, base, threshold + 1);
    } else {
        deviation_is_the_gap_in_basis_points(base, gap, base);
        lemma_at_least(gap * 10_000, base, threshold + 1);
    }
}

/// Without an average over five seconds, or without its price, nothing counts as manipulated.
pub proof fn no_manipulation_without_an_average(
    pool: PoolState,
    oracle: &ObservationState,
    now: u32,
    threshold: u16,
    price: Option<u128>,
)
    requires
        oracle.twap(5, now) is None || price is None || price == Some(0u128),
    ensures
        !manipulated(pool, oracle, now, threshold, price),
{
}

/// The threshold of a configuration is five percent where none is set.
pub proof fn threshold_has_a_default(config: ArbConfig)
    ensures
        config.manipulation_threshold_bps == 0 ==> config.threshold() == 500,
        config.manipulation_threshold_bps != 0 ==> config.threshold()
            == config.manipulation_threshold_bps,
{
}

/// A swap in a manipulated slot is taxed the configured part of its amount, if that is no more than
/// the whole and does not take all of it; any other swap is not taxed.
pub proof fn tax_is_the_configured_part(
    config: ArbConfig,
    detected: bool,
    swap_amount: u64,
    part: int,
)
    requires
        part * 10_000 <= swap_amount * config.manipulation_tax_bps < (part + 1) * 10_000,
    ensures
        tax_due(config, detected, swap_amount) == (if detected && config.manipulation_tax_bps
            <= 10_000 && part < swap_amount {
            part
        } else {
            0
        }),
{
    let product = swap_amount * config.manipulation_tax_bps;
    lemma_floor(product, 10_000, part);
    assert(product >= 0) by (nonlinear_arith)
        requires
            product == swap_amount * config.manipulation_tax_bps,
            swap_amount >= 0,
            config.manipulation_tax_bps >= 0,
    ;
}

/// A detection is counted once, and changes nothing else; where nothing is detected nothing
/// changes.
pub proof fn detection_is_counted(config: ArbConfig)
    ensures
        config_after_detection(config, false) == config,
        config.manipulation_detections < u64::MAX ==> config_after_detection(config, true) == (
        ArbConfig {
            manipulation_detections: (config.manipulation_detections + 1) as u64,
            ..config
        }),
        config.manipulation_detections == u64::MAX ==> config_after_detection(config, true)
            == config,
{
}

/// A tax is booked in the configuration on the side that pays, and nowhere else.
pub proof fn tax_is_booked_on_the_paying_side(config: ArbConfig, tax: u64, zero_for_one: bool)
    ensures
        ({
            let after = config_after_tax(config, tax, zero_for_one);
            &&& after.manipulation_tax_collected_a == (if !zero_for_one {
                config.manipulation_tax_collected_a as int
            } else if config.manipulation_tax_collected_a + tax > u64::MAX {
                u64::MAX as int
            } else {
                config.manipulation_tax_collected_a + tax
            })
            &&& after.manipulation_tax_collected_b == (if zero_for_one {
                config.manipulation_tax_collected_b as int
            } else if config.manipulation_tax_collected_b + tax > u64::MAX {
                u64::MAX as int
            } else {
                config.manipulation_tax_collected_b + tax
            })
            &&& after == (ArbConfig {
                manipulation_tax_collected_a: after.manipulation_tax_collected_a,
                manipulation_tax_collected_b: after.manipulation_tax_collected_b,
                ..config
            })
        }),
{
}

/// A tax that the fee counter of the paying side has no room for fills it up.
pub proof fn tax_fills_the_fee_counter(pool: PoolState, tax: u64, zero_for_one: bool)
    ensures
        zero_for_one && pool.protocol_fees_token_0 + tax > u64::MAX ==> pool_after_tax(
            pool,
            tax,
            zero_for_one,
        ).protocol_fees_token_0 == u64::MAX,
        !zero_for_one && pool.protocol_fees_token_1 + tax > u64::MAX ==> pool_after_tax(
            pool,
            tax,
            zero_for_one,
        ).protocol_fees_token_1 == u64::MAX,
{
}

/// What a swap under the pool's own configuration is taxed: manipulation by its threshold is
/// counted, and where a tax is due it is held back, booked in pool and configuration on the side
/// that pays, and published.
pub proof fn own_configuration_decides_on_the_tax(
    pool: PoolState,
    oracle: &ObservationState,
    account: ArbAccount,
    config: ArbConfig,
    expected: Pubkey,
    program_id: Pubkey,
    now: u32,
    swap_amount: u64,
    zero_for_one: bool,
    slot: Option<u64>,
    price: Option<u128>,
)
    requires
        account.key == expected,
        account.owner == program_id,
        account.config == Some(config),
    ensures
        ({
            let (after, account_after, report) = tax_effect(
                pool,
                oracle,
                Some(account),
                expected,
                program_id,
                now,
                swap_amount,
                zero_for_one,
                slot,
                price,
            );
            let threshold = if config.manipulation_threshold_bps == 0 {
                500
            } else {
                config.manipulation_threshold_bps
            };
            let detected = manipulated(pool, oracle, now, threshold, price);
            let counted = config_after_detection(config, detected);
            let tax = tax_due(config, detected, swap_amount);
            &&& report.tax_amount == tax
            &&& tax == 0 ==> {
                &&& after == pool
                &&& report.event is None
                &&& account_after == Some(ArbAccount { config: Some(counted), ..account })
            }
            &&& tax > 0 ==> {
                &&& after == pool_after_tax(pool, tax, zero_for_one)
                &&& account_after == Some(
                    ArbAccount {
                        config: Some(config_after_tax(counted, tax, zero_for_one)),
                        ..account
                    },
                )
                &&& report.event matches Some(event) && event.pool == config.pool
                    && event.swap_amount == swap_amount && event.tax_amount == tax
                    && event.tax_bps == config.manipulation_tax_bps && event.a_to_b == zero_for_one
                    && (slot is Some ==> event.slot == slot->0) && (slot is None ==> event.slot
                    == 0)
            }
        }),
{
}

/// A price pushed below its average is taxed like one pushed as far above it.
pub proof fn tax_treats_both_sides_alike(
    pool: PoolState,
    oracle: &ObservationState,
    account: Option<ArbAccount>,
    expected: Pubkey,
    program_id: Pubkey,
    now: u32,
    swap_amount: u64,
    zero_for_one: bool,
    slot: Option<u64>,
    average: u128,
    gap: u128,
)
    requires
        gap <= average,
        average + gap <= u128::MAX,
    ensures
        ({
            let above = PoolState { sqrt_price_x64: (average + gap) as u128, ..pool };
            let below = PoolState { sqrt_price_x64: (average - gap) as u128, ..pool };
            let of_above = tax_effect(
                above,
                oracle,
                account,
                expected,
                program_id,
                now,
                swap_amount,
                zero_for_one,
                slot,
                Some(average),
            );
            let of_below = tax_effect(
                below,
                oracle,
                account,
                expected,
                program_id,
                now,
                swap_amount,
                zero_for_one,
                slot,
                Some(average),
            );
            of_above.1 == of_below.1 && of_above.2 == of_below.2
        }),
{
}

/// The slot of a swap is recorded on the pool, and nothing else of it changes.
pub proof fn swap_slot_is_all_that_is_recorded(pool: PoolState, slot: u64)
    ensures
        slot_recorded(pool, slot).open_time == slot,
        slot_recorded(pool, slot) == (PoolState {
            open_time: slot_recorded(pool, slot).open_time,
            ..pool
        }),
        suspected(pool, slot) <==> pool.open_time == slot,
{
}

// The sweep by the sweep authority.
/// The accounts of a sweep by the authority are in order exactly where the configuration is that of
/// the pool, on, and names the authority and the treasury. The first that is not gives the reason.
pub proof fn authority_sweep_needs_its_accounts(ctx: &ArbSweep)
    ensures
        ({
            let config = ctx.arb_config;
            let own_pool = config.pool == ctx.pool_key;
            let own_authority = config.arb_authority == ctx.arb_authority;
            let own_treasury = config.treasury == ctx.treasury_vault;
            &&& !own_pool ==> accounts_error(ctx) == Some(ErrorCode::ConstraintRaw)
            &&& own_pool && !own_authority ==> accounts_error(ctx) == Some(ErrorCode::NotSender)
            &&& own_pool && own_authority && !config.enabled ==> accounts_error(ctx) == Some(
                ErrorCode::ArbDisabled,
            )
            &&& own_pool && own_authority && config.enabled && !own_treasury ==> accounts_error(ctx)
                == Some(ErrorCode::InvalidTreasury)
            &&& own_pool && own_authority && config.enabled && own_treasury ==> accounts_error(ctx)
                is None
        }),
{
}

/// A sweep by the authority is held against the average over the configured window, once its
/// cooldown is over and three observations are there.
pub proof fn authority_sweep_waits_its_turn(ctx: &ArbSweep, slot: u64, now: u32)
    requires
        accounts_error(ctx) is None,
    ensures
        ({
            let due = slot >= ctx.arb_config.last_sweep_slot + ctx.arb_config.cooldown_slots;
            let average = ctx.oracle.twap(ctx.arb_config.twap_window_seconds, now);
            &&& !due ==> reference(ctx, slot, now) == Err::<int, ErrorCode>(
                ErrorCode::ArbCooldownActive,
            )
            &&& due && (ctx.oracle.observation_index < 3 || average is None) ==> reference(
                ctx,
                slot,
                now,
            ) == Err::<int, ErrorCode>(ErrorCode::InsufficientOracleData)
            &&& due && ctx.oracle.observation_index >= 3 && average is Some ==> reference(
                ctx,
                slot,
                now,
            ) == Ok::<int, ErrorCode>(average->0)
        }),
{
}

/// A pool whose price is `gap` away from its average is swept by the authority exactly where that
/// is at least the configured part of the average and the sweep gains something; what is swept,
/// paid and routed to the treasury is published.
pub proof fn authority_sweep_answers_the_gap(
    ctx: &ArbSweep,
    slot: u64,
    now: u32,
    average: u128,
    gap: int,
)
    requires
        reference(ctx, slot, now) is Ok,
        gap >= 0,
        ctx.pool.sqrt_price_x64 == average + gap || ctx.pool.sqrt_price_x64 == average - gap,
        average > 0,
    ensures
        ({
            let spot = ctx.pool.sqrt_price_x64 as int;
            let config = ctx.arb_config;
            let measured = if gap * 10_000 > u128::MAX {
                u128::MAX as int
            } else {
                gap * 10_000
            };
            let wide = measured >= config.min_spread_bps * average;
            let size = sweep_size(
                spot,
                average as int,
                ctx.pool.liquidity as int,
                config.min_sweep_amount as int,
                config.max_sweep_amount as int,
            );
            let paid = arb_output(spot, ctx.pool.liquidity as int, size, spot > average);
            let outcome = sweep_event(ctx, slot, now, Ok(average));
            &&& !wide ==> outcome == Err::<ArbSweepEvent, ErrorCode>(ErrorCode::SpreadTooSmall)
            &&& wide && paid <= size ==> outcome == Err::<ArbSweepEvent, ErrorCode>(
                ErrorCode::NoArbProfit,
            )
            &&& wide && paid > size ==> outcome is Ok
            &&& outcome matches Ok(event) ==> {
                &&& event.pool == ctx.pool_key
                &&& event.slot == slot
                &&& event.a_to_b == (spot > average)
                &&& event.sweep_amount == size
                &&& event.amount_in == size
                &&& event.amount_out == paid
                &&& event.treasury_amount == treasury_share(config, (paid - size) as u64)
                &&& measured < 0x1_0000 * average ==> event.spread_bps * average <= measured < (
                event.spread_bps + 1) * average
            }
        }),
{
    let base = average as int;
    let spot = ctx.pool.sqrt_price_x64 as int;
    let measured = if gap * 10_000 > u128::MAX {
        u128::MAX as int
    } else {
        gap * 10_000
    };
    if gap * 10_000 > u128::MAX {
        immeasurable_gap_is_the_widest(base, gap, base);
    } else {
        deviation_is_the_gap_in_basis_points(base, gap, base);
    }
    lemma_at_least(measured, base, ctx.arb_config.min_spread_bps as int);
    lemma_at_least(measured, base, 0x1_0000);
    lemma_size_not_negative(ctx.pool, ctx.arb_config, average);
    let spread = deviation(spot, base, base);
    assert(spread >= 0) by (nonlinear_arith)
        requires
            measured < (spread + 1) * base,
            measured >= 0,
            base > 0,
    ;
}

/// A host that has no price for the average ends the sweep with its own error.
pub proof fn authority_sweep_needs_a_price(
    ctx: &ArbSweep,
    slot: u64,
    now: u32,
    error: ErrorCode,
)
    ensures
        reference(ctx, slot, now) is Ok ==> sweep_event(ctx, slot, now, Err(error)) == Err::<
            ArbSweepEvent,
            ErrorCode,
        >(error),
        forall|price: Result<u128, ErrorCode>|
            reference(ctx, slot, now) is Err ==> (#[trigger] sweep_event(ctx, slot, now, price))
                == Err::<ArbSweepEvent, ErrorCode>(reference(ctx, slot, now)->Err_0),
{
}

/// A sweep by the authority books what it routed in the token that was paid out, and its slot;
/// nothing else of the configuration changes.
pub proof fn authority_sweep_books_what_it_routed(config: ArbConfig, event: ArbSweepEvent)
    ensures
        ({
            let after = config_after(config, event);
            let routed = event.treasury_amount;
            &&& after.last_sweep_slot == event.slot
            &&& after.total_profit_captured_a == (if event.a_to_b {
                config.total_profit_captured_a as int
            } else if config.total_profit_captured_a + routed > u64::MAX {
                u64::MAX as int
            } else {
                config.total_profit_captured_a + routed
            })
            &&& after.total_profit_captured_b == (if !event.a_to_b {
                config.total_profit_captured_b as int
            } else if config.total_profit_captured_b + routed > u64::MAX {
                u64::MAX as int
            } else {
                config.total_profit_captured_b + routed
            })
            &&& after == (ArbConfig {
                last_sweep_slot: after.last_sweep_slot,
                total_profit_captured_a: after.total_profit_captured_a,
                total_profit_captured_b: after.total_profit_captured_b,
                ..config
            })
        }),
{
}

/// A sweep by the authority leaves the pool at the price that its amount moved it to, down where it
/// pays in token A and up where not, and changes nothing else of it.
pub proof fn authority_sweep_moves_the_price(
    pool: PoolState,
    amount: u64,
    a_to_b: bool,
    moved: int,
)
    requires
        if pool.liquidity == 0 {
            moved == amount * 0x1_0000_0000_0000_0000
        } else {
            moved * pool.liquidity <= amount * 0x1_0000_0000_0000_0000 < (moved + 1)
                * pool.liquidity
        },
    ensures
        ({
            let before = pool.sqrt_price_x64;
            let after = pool_after(pool, amount, a_to_b);
            &&& a_to_b ==> after.sqrt_price_x64 == (if moved > before {
                0
            } else {
                before - moved
            })
            &&& !a_to_b ==> after.sqrt_price_x64 == (if before + moved > u128::MAX {
                u128::MAX as int
            } else {
                before + moved
            })
            &&& after == (PoolState { sqrt_price_x64: after.sqrt_price_x64, ..pool })
        }),
{
    sweep_moves_price_by_its_amount(
        pool.sqrt_price_x64 as int,
        pool.liquidity as int,
        amount as int,
        moved,
    );
    if pool.liquidity > 0 {
        lemma_moved_not_negative(amount as int, pool.liquidity as int, moved);
    }
}

/// A configuration is accepted exactly where its share is at most the whole, its spread is not
/// zero, its limits are in order and its window has fifteen seconds.
pub proof fn configuration_is_checked(
    min_spread_bps: u16,
    treasury_share_bps: u16,
    twap_window_seconds: u32,
    min_sweep_amount: u64,
    max_sweep_amount: u64,
)
    ensures
        ({
            let error = parameters_error(
                min_spread_bps,
                treasury_share_bps,
                twap_window_seconds,
                min_sweep_amount,
                max_sweep_amount,
            );
            &&& error is None <==> {
                &&& treasury_share_bps <= 10_000
                &&& min_spread_bps > 0
                &&& min_sweep_amount < max_sweep_amount
                &&& twap_window_seconds >= 15
            }
            &&& treasury_share_bps > 10_000 ==> error == Some(ErrorCode::ArithmeticOverflow)
            &&& treasury_share_bps <= 10_000 && min_spread_bps == 0 ==> error == Some(
                ErrorCode::ZeroLiquidity,
            )
            &&& treasury_share_bps <= 10_000 && min_spread_bps > 0 && min_sweep_amount
                >= max_sweep_amount ==> error == Some(ErrorCode::AmountBelowMin)
            &&& treasury_share_bps <= 10_000 && min_spread_bps > 0 && min_sweep_amount
                < max_sweep_amount && twap_window_seconds < 15 ==> error == Some(
                ErrorCode::InsufficientOracleData,
            )
        }),
{
}

} // verus!
