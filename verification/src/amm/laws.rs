//! What holds of the pool program beyond single instructions.
use vstd::prelude::*;

use crate::amm::error::ErrorCode;
use crate::amm::instructions::arb_sweep::ArbSweep;
#[allow(unused_imports)]
use crate::amm::instructions::arb_sweep::{
    config_after, pool_after, reference, sweep_event, ArbSweepEvent,
};
#[allow(unused_imports)]
use crate::amm::instructions::nebula_shield::{
    config_after_detection, config_after_sweep, config_after_tax, pool_after_sweep, pool_after_tax,
    slot_recorded, suspected, sweep_against, sweep_allowed, sweep_made, sweep_with_account,
    tax_detected, tax_due, tax_effect, treasury_share, trusted_config, ArbAccount, Sweep,
};
#[allow(unused_imports)]
use crate::amm::instructions::swap_v2::{swap_in_range, swap_outcome};
#[allow(unused_imports)]
use crate::amm::instructions::swap_v2::{HostReplies, RemainingAccount, SwapRequest, SwapSingleV2};
use crate::amm::states::nebula_shield::ArbConfig;
use crate::amm::states::oracle::ObservationState;
use crate::amm::states::pool::PoolState;
#[allow(unused_imports)]
use crate::arith::{distance, lemma_share_in_range, max_of, share_of};
use crate::keys::Pubkey;
#[allow(unused_imports)]
use crate::pricing::{amount_for_step, closing_step, deviation, price_impact};

verus! {

// The sweep.
/// After a sweep the next one waits for the cooldown.
pub proof fn sweeps_keep_their_distance(
    config: ArbConfig,
    sweep: Sweep,
    slot: u64,
    oracle: &ObservationState,
    later: u64,
)
    requires
        sweep_allowed(config_after_sweep(config, sweep, slot), oracle, later),
    ensures
        later >= slot + config.cooldown_slots,
{
}

/// A disabled configuration, or one with too few observations, sweeps nothing.
pub proof fn no_sweep_while_disabled_or_blind(
    pool: PoolState,
    config: ArbConfig,
    oracle: &ObservationState,
    slot: u64,
    now: u32,
    twap_sqrt: Option<u128>,
)
    requires
        !config.enabled || oracle.observation_index < 3,
    ensures
        sweep_made(pool, config, oracle, slot, now, twap_sqrt) is None,
{
}

/// A sweep needs the configured spread, gains something, and stays between the configured amounts.
pub proof fn sweep_stays_within_limits(pool: PoolState, config: ArbConfig, reference: u128)
    requires
        config.valid(),
        sweep_against(pool, config, reference) is Some,
    ensures
        ({
            let sweep = sweep_against(pool, config, reference)->0;
            &&& deviation(pool.sqrt_price_x64 as int, reference as int, reference as int)
                >= config.min_spread_bps
            &&& config.min_sweep_amount <= sweep.amount <= config.max_sweep_amount
            &&& sweep.profit > 0
        }),
{
}

/// A sweep moves the price toward its average: down from above, up from below.
pub proof fn sweep_moves_price_toward_average(pool: PoolState, config: ArbConfig, reference: u128)
    requires
        sweep_against(pool, config, reference) is Some,
    ensures
        ({
            let sweep = sweep_against(pool, config, reference)->0;
            let after = pool_after_sweep(pool, config, sweep).sqrt_price_x64;
            &&& pool.sqrt_price_x64 > reference ==> after <= pool.sqrt_price_x64
            &&& pool.sqrt_price_x64 <= reference ==> after >= pool.sqrt_price_x64
        }),
{
    let sweep = sweep_against(pool, config, reference)->0;
    lemma_impact_not_negative(sweep.amount as int, pool.liquidity as int);
}

/// A price impact is not negative.
proof fn lemma_impact_not_negative(amount: int, liquidity: int)
    requires
        amount >= 0,
    ensures
        price_impact(amount, liquidity) >= 0,
{
    let moved = amount * 0x1_0000_0000_0000_0000;
    let divisor = max_of(liquidity, 1);
    assert(moved / divisor >= 0) by (nonlinear_arith)
        requires
            moved >= 0,
            divisor > 0,
    ;
}

/// A sweep closes at most four fifths of the gap, and so never carries the price past its average,
/// unless the smallest sweep is larger than that.
pub proof fn sweep_closes_at_most_four_fifths(pool: PoolState, config: ArbConfig, reference: u128)
    requires
        sweep_against(pool, config, reference) is Some,
        config.min_sweep_amount <= amount_for_step(
            pool.liquidity as int,
            closing_step(pool.sqrt_price_x64 as int, reference as int),
        ),
    ensures
        ({
            let spot = pool.sqrt_price_x64 as int;
            let gap = distance(spot, reference as int);
            let sweep = sweep_against(pool, config, reference)->0;
            let after = pool_after_sweep(pool, config, sweep).sqrt_price_x64 as int;
            &&& distance(spot, after) <= gap * 4 / 5
            &&& spot > reference ==> reference <= after <= spot
            &&& spot <= reference ==> spot <= after <= reference
        }),
{
    let spot = pool.sqrt_price_x64 as int;
    let liquidity = pool.liquidity as int;
    let step = closing_step(spot, reference as int);
    let sweep = sweep_against(pool, config, reference)->0;
    let amount = sweep.amount as int;
    assert(amount <= amount_for_step(liquidity, step));
    assert(liquidity > 0) by {
        if liquidity == 0 {
            assert(0 * step == 0);
        }
    }
    let one: int = 0x1_0000_0000_0000_0000;
    assert(amount * one <= liquidity * step);
    let moved = amount * one;
    assert(0 <= moved / liquidity <= step) by (nonlinear_arith)
        requires
            0 <= moved <= liquidity * step,
            liquidity > 0,
    ;
    assert(price_impact(amount, liquidity) == moved / liquidity);
}

/// The treasury never gets more than the profit, and a pool books exactly its share, on the side
/// that pays out, as long as the fee counter has room.
pub proof fn treasury_gets_its_share(pool: PoolState, config: ArbConfig, sweep: Sweep)
    requires
        config.valid(),
    ensures
        treasury_share(config, sweep.profit) == share_of(
            sweep.profit as int,
            config.treasury_share_bps as int,
        ),
        treasury_share(config, sweep.profit) <= sweep.profit,
        ({
            let after = pool_after_sweep(pool, config, sweep);
            let share = treasury_share(config, sweep.profit);
            if sweep.a_to_b {
                &&& after.protocol_fees_token_0 == pool.protocol_fees_token_0
                &&& pool.protocol_fees_token_1 + share <= u64::MAX ==> after.protocol_fees_token_1
                    == pool.protocol_fees_token_1 + share
            } else {
                &&& after.protocol_fees_token_1 == pool.protocol_fees_token_1
                &&& pool.protocol_fees_token_0 + share <= u64::MAX ==> after.protocol_fees_token_0
                    == pool.protocol_fees_token_0 + share
            }
        }),
{
    lemma_share_in_range(sweep.profit as int, config.treasury_share_bps as int);
}

/// A sweep leaves everything of a pool but its price and its protocol fees.
pub proof fn sweep_touches_price_and_fees_only(pool: PoolState, config: ArbConfig, sweep: Sweep)
    ensures
        ({
            let after = pool_after_sweep(pool, config, sweep);
            after == (PoolState {
                sqrt_price_x64: after.sqrt_price_x64,
                protocol_fees_token_0: after.protocol_fees_token_0,
                protocol_fees_token_1: after.protocol_fees_token_1,
                ..pool
            })
        }),
{
}

/// Two configurations agree on all that initialization sets up.
pub open spec fn same_settings(a: ArbConfig, b: ArbConfig) -> bool {
    &&& a.pool == b.pool
    &&& a.arb_authority == b.arb_authority
    &&& a.treasury == b.treasury
    &&& a.min_spread_bps == b.min_spread_bps
    &&& a.treasury_share_bps == b.treasury_share_bps
    &&& a.twap_window_seconds == b.twap_window_seconds
    &&& a.min_sweep_amount == b.min_sweep_amount
    &&& a.max_sweep_amount == b.max_sweep_amount
    &&& a.cooldown_slots == b.cooldown_slots
    &&& a.manipulation_tax_bps == b.manipulation_tax_bps
    &&& a.manipulation_threshold_bps == b.manipulation_threshold_bps
    &&& a.enabled == b.enabled
    &&& a.bump == b.bump
}

/// Sweeps, detections and taxes change no setting, keep a configuration valid, and never let a
/// counter go down.
pub proof fn shield_keeps_settings(
    config: ArbConfig,
    sweep: Sweep,
    slot: u64,
    detected: bool,
    tax: u64,
    zero_for_one: bool,
)
    requires
        config.valid(),
    ensures
        forall|after: ArbConfig|
            #![trigger same_settings(config, after)]
            after == config_after_sweep(config, sweep, slot) || after == config_after_detection(
                config,
                detected,
            ) || after == config_after_tax(config, tax, zero_for_one) ==> {
                &&& same_settings(config, after)
                &&& after.valid()
                &&& after.total_profit_captured_a >= config.total_profit_captured_a
                &&& after.total_profit_captured_b >= config.total_profit_captured_b
                &&& after.manipulation_tax_collected_a >= config.manipulation_tax_collected_a
                &&& after.manipulation_tax_collected_b >= config.manipulation_tax_collected_b
                &&& after.manipulation_detections >= config.manipulation_detections
            },
{
}

// The sweep by the sweep authority.
/// After a sweep by the authority the next one waits for the cooldown.
pub proof fn authority_sweeps_keep_their_distance(
    ctx: &ArbSweep,
    before: ArbConfig,
    event: ArbSweepEvent,
    slot: u64,
    now: u32,
)
    requires
        ctx.arb_config == config_after(before, event),
        reference(ctx, slot, now) is Ok,
    ensures
        slot >= event.slot + before.cooldown_slots,
{
}

/// Nobody but the authority sweeps, and the treasury share goes nowhere but to the configured
/// treasury.
pub proof fn only_authority_sweeps(
    ctx: &ArbSweep,
    slot: u64,
    now: u32,
    twap: Result<u128, ErrorCode>,
)
    requires
        sweep_event(ctx, slot, now, twap) is Ok,
    ensures
        ctx.arb_authority == ctx.arb_config.arb_authority,
        ctx.treasury_vault == ctx.arb_config.treasury,
        ctx.arb_config.pool == ctx.pool_key,
        ctx.arb_config.enabled,
{
}

/// A sweep by the authority pays out more than it pays in, and routes its share of the difference
/// to the treasury.
pub proof fn authority_sweep_gains(
    ctx: &ArbSweep,
    slot: u64,
    now: u32,
    twap: Result<u128, ErrorCode>,
)
    requires
        ctx.arb_config.valid(),
        sweep_event(ctx, slot, now, twap) is Ok,
    ensures
        ({
            let event = sweep_event(ctx, slot, now, twap)->Ok_0;
            &&& event.amount_out > event.amount_in
            &&& event.treasury_amount == share_of(
                event.amount_out - event.amount_in,
                ctx.arb_config.treasury_share_bps as int,
            )
            &&& event.treasury_amount <= event.amount_out - event.amount_in
            &&& ctx.arb_config.min_sweep_amount <= event.sweep_amount
                <= ctx.arb_config.max_sweep_amount
        }),
{
    let event = sweep_event(ctx, slot, now, twap)->Ok_0;
    lemma_share_in_range(
        event.amount_out - event.amount_in,
        ctx.arb_config.treasury_share_bps as int,
    );
}

/// A sweep by the authority moves the price toward its average, and changes nothing else of the
/// pool.
pub proof fn authority_sweep_moves_price_toward_average(
    ctx: &ArbSweep,
    slot: u64,
    now: u32,
    twap: u128,
)
    requires
        sweep_event(ctx, slot, now, Ok(twap)) is Ok,
    ensures
        ({
            let event = sweep_event(ctx, slot, now, Ok(twap))->Ok_0;
            let after = pool_after(ctx.pool, event.sweep_amount, event.a_to_b);
            &&& ctx.pool.sqrt_price_x64 > twap ==> after.sqrt_price_x64 <= ctx.pool.sqrt_price_x64
            &&& ctx.pool.sqrt_price_x64 <= twap ==> after.sqrt_price_x64 >= ctx.pool.sqrt_price_x64
            &&& after == (PoolState { sqrt_price_x64: after.sqrt_price_x64, ..ctx.pool })
        }),
{
    let event = sweep_event(ctx, slot, now, Ok(twap))->Ok_0;
    lemma_impact_not_negative(event.sweep_amount as int, ctx.pool.liquidity as int);
}

// The tax.
/// A tax never takes all of a swap, nor more than its rate.
pub proof fn tax_leaves_something_to_swap(config: ArbConfig, detected: bool, swap_amount: u64)
    ensures
        tax_due(config, detected, swap_amount) == 0 || tax_due(config, detected, swap_amount)
            < swap_amount,
        tax_due(config, detected, swap_amount) * 10_000 <= swap_amount
            * config.manipulation_tax_bps,
        !detected ==> tax_due(config, detected, swap_amount) == 0,
{
    lemma_share_in_range(swap_amount as int, config.manipulation_tax_bps as int);
}

/// A tax is booked on the side that pays, to the last unit, as long as the fee counter has room.
pub proof fn tax_goes_to_fees_of_paying_side(pool: PoolState, tax: u64, zero_for_one: bool)
    ensures
        ({
            let after = pool_after_tax(pool, tax, zero_for_one);
            if zero_for_one {
                &&& pool.protocol_fees_token_0 + tax <= u64::MAX ==> after.protocol_fees_token_0
                    == pool.protocol_fees_token_0 + tax
                &&& after == (PoolState {
                    protocol_fees_token_0: after.protocol_fees_token_0,
                    ..pool
                })
            } else {
                &&& pool.protocol_fees_token_1 + tax <= u64::MAX ==> after.protocol_fees_token_1
                    == pool.protocol_fees_token_1 + tax
                &&& after == (PoolState {
                    protocol_fees_token_1: after.protocol_fees_token_1,
                    ..pool
                })
            }
        }),
{
}

/// A swap in a slot in which nothing was manipulated is not taxed, and leaves pool and
/// configuration as they were.
pub proof fn honest_swap_is_not_taxed(
    pool: PoolState,
    observation: &ObservationState,
    account: Option<ArbAccount>,
    expected: Pubkey,
    program_id: Pubkey,
    now: u32,
    swap_amount: u64,
    zero_for_one: bool,
    slot: Option<u64>,
    twap_sqrt: Option<u128>,
)
    requires
        trusted_config(account, expected, program_id) matches Some(config) ==> !tax_detected(
            pool,
            observation,
            config,
            now,
            twap_sqrt,
        ),
    ensures
        ({
            let (after, account_after, report) = tax_effect(
                pool,
                observation,
                account,
                expected,
                program_id,
                now,
                swap_amount,
                zero_for_one,
                slot,
                twap_sqrt,
            );
            &&& after == pool
            &&& account_after == account
            &&& report.tax_amount == 0
            &&& report.event is None
        }),
{
}

/// An account that stands elsewhere, or that belongs to another program, has no say: the shield
/// neither sweeps nor taxes, and changes nothing.
pub proof fn foreign_account_has_no_say(
    pool: PoolState,
    observation: &ObservationState,
    account: ArbAccount,
    expected: Pubkey,
    program_id: Pubkey,
    now: u32,
    swap_amount: u64,
    zero_for_one: bool,
    slot: Option<u64>,
    twap_sqrt: Option<u128>,
)
    requires
        account.key != expected || account.owner != program_id,
    ensures
        sweep_with_account(
            pool,
            observation,
            Some(account),
            expected,
            program_id,
            slot,
            now,
            twap_sqrt,
        ) is None,
        ({
            let (after, account_after, report) = tax_effect(
                pool,
                observation,
                Some(account),
                expected,
                program_id,
                now,
                swap_amount,
                zero_for_one,
                slot,
                twap_sqrt,
            );
            after == pool && account_after == Some(account) && report.tax_amount == 0
        }),
{
}

// The lock after a swap.
/// Liquidity that moves in the slot of a swap is suspected of a back-run; in any other slot it is
/// not, until the next swap.
pub proof fn back_run_is_suspected_in_slot_of_swap(pool: PoolState, swap_slot: u64, slot: u64)
    ensures
        suspected(slot_recorded(pool, swap_slot), slot) <==> slot == swap_slot,
{
}

/// Every swap that is made leaves its slot on the pool.
pub proof fn swap_leaves_its_slot(
    ctx: &SwapSingleV2,
    remaining: Seq<RemainingAccount>,
    request: SwapRequest,
    replies: HostReplies,
    arb_config: Pubkey,
)
    requires
        swap_in_range(ctx, request, replies),
        swap_outcome(ctx, remaining, request, replies, arb_config) is Ok,
        replies.slot is Some,
    ensures
        suspected(
            swap_outcome(ctx, remaining, request, replies, arb_config)->Ok_0.pool_state,
            replies.slot->0,
        ),
{
}

} // verus!
