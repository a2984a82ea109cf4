//! Protocol sweep: the sweep authority captures the spread between the pool price and its average.
//!
//! The sweep runs in three steps around the host's price conversions and token transfer:
//! [`reference_tick`] names the tick of the average price, [`handler`] sweeps against the
//! square-root price at that tick, [`settle_tick`] adopts the tick of the corrected price.
use vstd::prelude::*;

use crate::amm::error::ErrorCode;
use crate::amm::states::nebula_shield::ArbConfig;
use crate::amm::states::oracle::ObservationState;
use crate::amm::states::pool::PoolState;
use crate::arith::{bps_share, low_u16, low_u64};
#[allow(unused_imports)]
use crate::arith::{distance, share_of, wrap_u64};
use crate::keys::Pubkey;
use crate::pricing::{deviation_bps, price_after, reserve_of, size_of_sweep};
#[allow(unused_imports)]
use crate::pricing::{arb_output, corrected_price, deviation, sweep_size, virtual_reserve};

verus! {

/// Observations needed before a sweep.
pub const MIN_OBSERVATIONS: u16 = 3;

/// Tax rate of a new configuration: ninety percent.
pub const DEFAULT_MANIPULATION_TAX_BPS: u16 = 9000;

/// Accounts of [`handler`].
#[derive(Debug)]
pub struct ArbSweep {
    pub arb_authority: Pubkey,
    pub pool_key: Pubkey,
    pub pool: PoolState,
    pub arb_config: ArbConfig,
    pub oracle: ObservationState,
    pub treasury_vault: Pubkey,
}

/// Accounts of [`handler_init`].
#[derive(Clone, Copy, Debug)]
pub struct InitArbConfig {
    pub admin: Pubkey,
    pub pool: Pubkey,
    /// Bump seed of the new configuration account
    pub arb_config_bump: u8,
}

/// Accounts of [`handler_toggle`].
#[derive(Clone, Copy, Debug)]
pub struct ToggleArb {
    pub arb_authority: Pubkey,
    pub arb_config: ArbConfig,
    pub pool: Pubkey,
}

/// A sweep was made.
#[derive(Clone, Copy, Debug)]
pub struct ArbSweepEvent {
    pub pool: Pubkey,
    pub spread_bps: u16,
    pub sweep_amount: u64,
    pub amount_in: u64,
    pub amount_out: u64,
    pub treasury_amount: u64,
    pub a_to_b: bool,
    pub slot: u64,
}

/// What the accounts of a sweep have to satisfy.
pub open spec fn accounts_error(ctx: &ArbSweep) -> Option<ErrorCode> {
    if ctx.arb_config.pool != ctx.pool_key {
        Some(ErrorCode::ConstraintRaw)
    } else if ctx.arb_config.arb_authority != ctx.arb_authority {
        Some(ErrorCode::NotSender)
    } else if !ctx.arb_config.enabled {
        Some(ErrorCode::ArbDisabled)
    } else if ctx.arb_config.treasury != ctx.treasury_vault {
        Some(ErrorCode::InvalidTreasury)
    } else {
        None
    }
}

/// The average tick that the price is held against, or why there is no sweep.
pub open spec fn reference(ctx: &ArbSweep, slot: u64, now: u32) -> Result<int, ErrorCode> {
    match accounts_error(ctx) {
        Some(error) => Err(error),
        None => if slot < ctx.arb_config.next_sweep_slot() {
            Err(ErrorCode::ArbCooldownActive)
        } else if ctx.oracle.observation_index < MIN_OBSERVATIONS {
            Err(ErrorCode::InsufficientOracleData)
        } else {
            match ctx.oracle.twap(ctx.arb_config.twap_window_seconds, now) {
                Some(tick) => Ok(tick),
                None => Err(ErrorCode::InsufficientOracleData),
            }
        },
    }
}

/// Spread of the pool price against a square-root price, in basis points.
pub open spec fn spread_against(ctx: &ArbSweep, twap: u128) -> int {
    deviation(ctx.pool.sqrt_price_x64 as int, twap as int, twap as int)
}

/// Amount swept against a square-root price.
pub open spec fn amount_against(ctx: &ArbSweep, twap: u128) -> int {
    sweep_size(
        ctx.pool.sqrt_price_x64 as int,
        twap as int,
        ctx.pool.liquidity as int,
        ctx.arb_config.min_sweep_amount as int,
        ctx.arb_config.max_sweep_amount as int,
    )
}

/// The event of a sweep, or why there is none. `twap` is the host's square-root price.
pub open spec fn sweep_event(
    ctx: &ArbSweep,
    slot: u64,
    now: u32,
    twap: Result<u128, ErrorCode>,
) -> Result<ArbSweepEvent, ErrorCode> {
    match (reference(ctx, slot, now), twap) {
        (Err(error), _) => Err(error),
        (Ok(_), Err(error)) => Err(error),
        (Ok(_), Ok(twap)) => {
            let a_to_b = ctx.pool.sqrt_price_x64 > twap;
            let spread = spread_against(ctx, twap);
            let amount = amount_against(ctx, twap);
            let amount_out = arb_output(
                ctx.pool.sqrt_price_x64 as int,
                ctx.pool.liquidity as int,
                amount,
                a_to_b,
            );
            if spread < ctx.arb_config.min_spread_bps {
                Err(ErrorCode::SpreadTooSmall)
            } else if amount_out <= amount {
                Err(ErrorCode::NoArbProfit)
            } else {
                Ok(
                    ArbSweepEvent {
                        pool: ctx.pool_key,
                        spread_bps: (spread % 0x1_0000) as u16,
                        sweep_amount: amount as u64,
                        amount_in: amount as u64,
                        amount_out: amount_out as u64,
                        treasury_amount: wrap_u64(
                            share_of(
                                amount_out - amount,
                                ctx.arb_config.treasury_share_bps as int,
                            ),
                        ) as u64,
                        a_to_b,
                        slot,
                    },
                )
            }
        },
    }
}

/// The configuration after a sweep.
pub open spec fn config_after(config: ArbConfig, event: ArbSweepEvent) -> ArbConfig {
    ArbConfig {
        total_profit_captured_a: if event.a_to_b {
            config.total_profit_captured_a
        } else {
            config.total_profit_captured_a.saturating_add(event.treasury_amount)
        },
        total_profit_captured_b: if event.a_to_b {
            config.total_profit_captured_b.saturating_add(event.treasury_amount)
        } else {
            config.total_profit_captured_b
        },
        last_sweep_slot: event.slot,
        ..config
    }
}

/// The pool after `amount` was swept; its tick still stands where it was.
pub open spec fn pool_after(pool: PoolState, amount: u64, a_to_b: bool) -> PoolState {
    PoolState {
        sqrt_price_x64: corrected_price(
            pool.sqrt_price_x64 as int,
            pool.liquidity as int,
            amount as int,
            a_to_b,
        ) as u128,
        ..pool
    }
}

/// The product, the sum and the divisor of a swap of `amount` fit.
pub open spec fn swap_in_range(
    sqrt_price: u128,
    liquidity: u128,
    amount: int,
    a_to_b: bool,
) -> bool {
    let depth = virtual_reserve(sqrt_price as int, liquidity as int, a_to_b) + amount;
    liquidity * amount <= u128::MAX && 0 < depth <= u128::MAX
}

/// The numbers of a sweep against `twap` fit, where the spread is wide enough for it.
pub open spec fn sweep_in_range(ctx: &ArbSweep, twap: u128) -> bool {
    spread_against(ctx, twap) >= ctx.arb_config.min_spread_bps ==> {
        &&& distance(ctx.pool.sqrt_price_x64 as int, twap as int) * 4 <= u128::MAX
        &&& swap_in_range(
            ctx.pool.sqrt_price_x64,
            ctx.pool.liquidity,
            amount_against(ctx, twap),
            ctx.pool.sqrt_price_x64 > twap,
        )
    }
}

/// Time-weighted average tick over the window that ends at `current_timestamp`.
pub fn get_twap_tick(
    oracle: &ObservationState,
    window_seconds: u32,
    current_timestamp: u32,
) -> (tick: Option<i32>)
    requires
        oracle.valid(),
    ensures
        match tick {
            Some(tick) => oracle.twap(window_seconds, current_timestamp) == Some(tick as int),
            None => oracle.twap(window_seconds, current_timestamp) is None,
        },
{
    oracle.observe_twap(window_seconds, current_timestamp)
}

/// Spread in basis points of the average, and whether the price is above it.
pub fn calculate_spread(spot: u128, twap: u128) -> (spread: (u128, bool))
    ensures
        spread.0 == deviation(spot as int, twap as int, twap as int),
        spread.1 == (spot > twap),
{
    (deviation_bps(spot, twap, twap), spot > twap)
}

/// Amount that closes four fifths of the gap, within the limits.
pub fn calculate_sweep_amount(
    spot: u128,
    twap: u128,
    liquidity: u128,
    min_amount: u64,
    max_amount: u64,
    a_to_b: bool,
) -> (amount: u64)
    requires
        if a_to_b {
            spot >= twap
        } else {
            twap >= spot
        },
        distance(spot as int, twap as int) * 4 <= u128::MAX,
    ensures
        amount == sweep_size(
            spot as int,
            twap as int,
            liquidity as int,
            min_amount as int,
            max_amount as int,
        ),
{
    size_of_sweep(spot, twap, liquidity, min_amount, max_amount)
}

/// Amounts paid in and out by a swap of `amount`.
pub fn compute_arb_swap(sqrt_price: u128, liquidity: u128, amount: u64, a_to_b: bool) -> (amounts: (
    u64,
    u64,
))
    requires
        swap_in_range(sqrt_price, liquidity, amount as int, a_to_b),
    ensures
        amounts.0 == amount,
        amounts.1 == arb_output(sqrt_price as int, liquidity as int, amount as int, a_to_b),
{
    let numerator: u128 = liquidity * (amount as u128);
    let depth: u128 = reserve_of(sqrt_price, liquidity, a_to_b) + amount as u128;
    (amount, low_u64(numerator / depth))
}

/// Corrects the price of the pool for a sweep of `amount`.
pub fn apply_arb_to_pool(pool: &mut PoolState, amount: u64, a_to_b: bool)
    ensures
        *final(pool) == pool_after(*old(pool), amount, a_to_b),
{
    pool.sqrt_price_x64 = price_after(pool.sqrt_price_x64, pool.liquidity, amount, a_to_b);
}

/// Checks the accounts of a sweep.
pub fn check_accounts(ctx: &ArbSweep) -> (outcome: Result<(), ErrorCode>)
    ensures
        outcome == match accounts_error(ctx) {
            Some(error) => Err::<(), ErrorCode>(error),
            None => Ok(()),
        },
{
    if ctx.arb_config.pool != ctx.pool_key {
        return Err(ErrorCode::ConstraintRaw);
    }
    if ctx.arb_config.arb_authority != ctx.arb_authority {
        return Err(ErrorCode::NotSender);
    }
    if !ctx.arb_config.enabled {
        return Err(ErrorCode::ArbDisabled);
    }
    if ctx.arb_config.treasury != ctx.treasury_vault {
        return Err(ErrorCode::InvalidTreasury);
    }
    Ok(())
}

/// The tick whose square-root price [`handler`] needs, or why there is no sweep.
pub fn reference_tick(ctx: &ArbSweep, current_slot: u64, current_timestamp: u32) -> (tick: Result<
    i32,
    ErrorCode,
>)
    requires
        ctx.oracle.valid(),
        accounts_error(ctx) is None ==> ctx.arb_config.next_sweep_slot() <= u64::MAX,
    ensures
        match tick {
            Ok(tick) => reference(ctx, current_slot, current_timestamp) == Ok::<int, ErrorCode>(
                tick as int,
            ),
            Err(error) => reference(ctx, current_slot, current_timestamp) == Err::<int, ErrorCode>(
                error,
            ),
        },
{
    if let Err(error) = check_accounts(ctx) {
        return Err(error);
    }
    if current_slot < ctx.arb_config.last_sweep_slot + ctx.arb_config.cooldown_slots {
        return Err(ErrorCode::ArbCooldownActive);
    }
    if ctx.oracle.observation_index < MIN_OBSERVATIONS {
        return Err(ErrorCode::InsufficientOracleData);
    }
    match get_twap_tick(&ctx.oracle, ctx.arb_config.twap_window_seconds, current_timestamp) {
        Some(tick) => Ok(tick),
        None => Err(ErrorCode::InsufficientOracleData),
    }
}

/// Sweeps the spread. `twap_sqrt_price` is the square-root price at the tick that
/// [`reference_tick`] names, or the host's refusal of it. The host moves `treasury_amount` to the
/// treasury, out of the vault of token 1 where `a_to_b` holds and of token 0 where not, and then
/// calls [`settle_tick`].
pub fn handler(
    ctx: &mut ArbSweep,
    current_slot: u64,
    current_timestamp: u32,
    twap_sqrt_price: Result<u128, ErrorCode>,
) -> (outcome: Result<ArbSweepEvent, ErrorCode>)
    requires
        old(ctx).oracle.valid(),
        accounts_error(old(ctx)) is None ==> old(ctx).arb_config.next_sweep_slot() <= u64::MAX,
        reference(old(ctx), current_slot, current_timestamp) is Ok && twap_sqrt_price is Ok
            ==> sweep_in_range(old(ctx), twap_sqrt_price->Ok_0),
    ensures
        outcome == sweep_event(old(ctx), current_slot, current_timestamp, twap_sqrt_price),
        match outcome {
            Ok(event) => *final(ctx) == (ArbSweep {
                pool: pool_after(old(ctx).pool, event.sweep_amount, event.a_to_b),
                arb_config: config_after(old(ctx).arb_config, event),
                ..*old(ctx)
            }),
            Err(_) => *final(ctx) == *old(ctx),
        },
{
    if let Err(error) = reference_tick(ctx, current_slot, current_timestamp) {
        return Err(error);
    }
    let twap: u128 = match twap_sqrt_price {
        Ok(price) => price,
        Err(error) => {
            return Err(error);
        },
    };
    let spot: u128 = ctx.pool.sqrt_price_x64;
    let liquidity: u128 = ctx.pool.liquidity;
    let (spread_bps, a_to_b) = calculate_spread(spot, twap);
    if spread_bps < ctx.arb_config.min_spread_bps as u128 {
        return Err(ErrorCode::SpreadTooSmall);
    }
    let sweep_amount: u64 = calculate_sweep_amount(
        spot,
        twap,
        liquidity,
        ctx.arb_config.min_sweep_amount,
        ctx.arb_config.max_sweep_amount,
        a_to_b,
    );
    let (amount_in, amount_out) = compute_arb_swap(spot, liquidity, sweep_amount, a_to_b);
    let profit: u64 = amount_out.saturating_sub(amount_in);
    if profit == 0 {
        return Err(ErrorCode::NoArbProfit);
    }
    let treasury_amount: u64 = bps_share(profit, ctx.arb_config.treasury_share_bps);
    if treasury_amount > 0 {
        if a_to_b {
            ctx.arb_config.total_profit_captured_b =
            ctx.arb_config.total_profit_captured_b.saturating_add(treasury_amount);
        } else {
            ctx.arb_config.total_profit_captured_a =
            ctx.arb_config.total_profit_captured_a.saturating_add(treasury_amount);
        }
    }
    apply_arb_to_pool(&mut ctx.pool, sweep_amount, a_to_b);
    ctx.arb_config.last_sweep_slot = current_slot;
    Ok(
        ArbSweepEvent {
            pool: ctx.pool_key,
            spread_bps: low_u16(spread_bps),
            sweep_amount,
            amount_in,
            amount_out,
            treasury_amount,
            a_to_b,
            slot: current_slot,
        },
    )
}

/// Moves the pool to the tick of its corrected price, or refuses the sweep with the host's error.
pub fn settle_tick(pool: &mut PoolState, new_tick: Result<i32, ErrorCode>) -> (outcome: Result<
    (),
    ErrorCode,
>)
    ensures
        match new_tick {
            Ok(tick) => outcome == Ok::<(), ErrorCode>(()) && *final(pool) == (PoolState {
                tick_current: tick,
                ..*old(pool)
            }),
            Err(error) => outcome == Err::<(), ErrorCode>(error) && *final(pool) == *old(pool),
        },
{
    match new_tick {
        Ok(tick) => {
            pool.tick_current = tick;
            Ok(())
        },
        Err(error) => Err(error),
    }
}

/// Why the parameters of a configuration are refused.
pub open spec fn parameters_error(
    min_spread_bps: u16,
    treasury_share_bps: u16,
    twap_window_seconds: u32,
    min_sweep_amount: u64,
    max_sweep_amount: u64,
) -> Option<ErrorCode> {
    if treasury_share_bps > 10_000 {
        Some(ErrorCode::ArithmeticOverflow)
    } else if min_spread_bps == 0 {
        Some(ErrorCode::ZeroLiquidity)
    } else if min_sweep_amount >= max_sweep_amount {
        Some(ErrorCode::AmountBelowMin)
    } else if twap_window_seconds < 15 {
        Some(ErrorCode::InsufficientOracleData)
    } else {
        None
    }
}

/// Sets up the sweep configuration of a pool.
pub fn handler_init(
    ctx: &InitArbConfig,
    arb_authority: Pubkey,
    treasury: Pubkey,
    min_spread_bps: u16,
    treasury_share_bps: u16,
    twap_window_seconds: u32,
    min_sweep_amount: u64,
    max_sweep_amount: u64,
    cooldown_slots: u64,
) -> (outcome: Result<ArbConfig, ErrorCode>)
    ensures
        outcome == (match parameters_error(
            min_spread_bps,
            treasury_share_bps,
            twap_window_seconds,
            min_sweep_amount,
            max_sweep_amount,
        ) {
            Some(error) => Err(error),
            None => Ok(
                ArbConfig {
                    pool: ctx.pool,
                    arb_authority,
                    treasury,
                    min_spread_bps,
                    treasury_share_bps,
                    twap_window_seconds,
                    min_sweep_amount,
                    max_sweep_amount,
                    last_sweep_slot: 0,
                    cooldown_slots,
                    total_profit_captured_a: 0,
                    total_profit_captured_b: 0,
                    enabled: true,
                    bump: ctx.arb_config_bump,
                    manipulation_tax_bps: DEFAULT_MANIPULATION_TAX_BPS,
                    manipulation_tax_collected_a: 0,
                    manipulation_tax_collected_b: 0,
                    manipulation_detections: 0,
                    manipulation_threshold_bps: 0,
                },
            ),
        }),
        outcome matches Ok(config) ==> config.valid(),
{
    if treasury_share_bps > 10_000 {
        return Err(ErrorCode::ArithmeticOverflow);
    }
    if min_spread_bps == 0 {
        return Err(ErrorCode::ZeroLiquidity);
    }
    if min_sweep_amount >= max_sweep_amount {
        return Err(ErrorCode::AmountBelowMin);
    }
    if twap_window_seconds < 15 {
        return Err(ErrorCode::InsufficientOracleData);
    }
    Ok(
        ArbConfig {
            pool: ctx.pool,
            arb_authority,
            treasury,
            min_spread_bps,
            treasury_share_bps,
            twap_window_seconds,
            min_sweep_amount,
            max_sweep_amount,
            last_sweep_slot: 0,
            cooldown_slots,
            total_profit_captured_a: 0,
            total_profit_captured_b: 0,
            enabled: true,
            bump: ctx.arb_config_bump,
            manipulation_tax_bps: DEFAULT_MANIPULATION_TAX_BPS,
            manipulation_tax_collected_a: 0,
            manipulation_tax_collected_b: 0,
            manipulation_detections: 0,
            manipulation_threshold_bps: 0,
        },
    )
}

/// Turns the sweep on or off.
pub fn handler_toggle(ctx: &mut ToggleArb, enabled: bool) -> (outcome: Result<(), ErrorCode>)
    ensures
        outcome == (if old(ctx).arb_config.arb_authority == old(ctx).arb_authority {
            Ok::<(), ErrorCode>(())
        } else {
            Err(ErrorCode::NotSender)
        }),
        *final(ctx) == (if outcome is Ok {
            ToggleArb {
                arb_config: ArbConfig { enabled, ..old(ctx).arb_config },
                ..*old(ctx)
            }
        } else {
            *old(ctx)
        }),
{
    if ctx.arb_config.arb_authority != ctx.arb_authority {
        return Err(ErrorCode::NotSender);
    }
    ctx.arb_config.enabled = enabled;
    Ok(())
}

} // verus!
