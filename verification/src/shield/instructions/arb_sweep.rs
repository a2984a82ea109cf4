//! Sweeping arbitrage profit to the treasury.
use vstd::prelude::*;

use crate::amm::states::oracle::ObservationState;
use crate::arith::bps_share;
#[allow(unused_imports)]
use crate::arith::{distance, max_of, share_of, wrap_u64};
use crate::keys::Pubkey;
use crate::pricing::{deviation_bps, output_of, size_of_sweep};
#[allow(unused_imports)]
use crate::pricing::{arb_output, deviation, sweep_size};
use crate::shield::error::ShieldError;
use crate::shield::state::{GlobalShieldState, ShieldConfig};

verus! {

/// Accounts of [`handler`].
#[derive(Clone, Copy, Debug)]
pub struct ExecuteArbSweep {
    pub arb_authority: Pubkey,
    pub pool: Pubkey,
    pub shield_config: ShieldConfig,
    pub treasury_vault: Pubkey,
    pub global_shield: GlobalShieldState,
}

/// Square-root prices that a sweep is held against: the pool's, and its average.
#[derive(Clone, Copy, Debug)]
pub struct PriceReference {
    pub spot: u128,
    pub twap: u128,
}

/// A sweep was made.
#[derive(Clone, Copy, Debug)]
pub struct ArbSweepExecuted {
    pub pool: Pubkey,
    pub sweep_amount: u64,
    pub treasury_amount: u64,
    pub slot: u64,
}

/// Treasury share of a sweep.
pub open spec fn treasury_amount(config: ShieldConfig, sweep_amount: u64) -> u64 {
    wrap_u64(share_of(sweep_amount as int, config.treasury_share_bps as int)) as u64
}

/// Why the accounts of a sweep are refused.
pub open spec fn account_error(ctx: ExecuteArbSweep) -> Option<ShieldError> {
    if ctx.arb_authority != ctx.shield_config.arb_authority {
        Some(ShieldError::NotArbAuthority)
    } else if ctx.shield_config.pool != ctx.pool {
        Some(ShieldError::PoolMismatch)
    } else if !ctx.shield_config.enabled {
        Some(ShieldError::ShieldDisabled)
    } else if ctx.treasury_vault != ctx.shield_config.treasury {
        Some(ShieldError::InvalidTreasury)
    } else {
        None
    }
}

/// Spread between a price and its average, in basis points of the average.
pub open spec fn spread_of(spot: u128, twap: u128) -> int {
    deviation(spot as int, twap as int, max_of(twap as int, 1))
}

/// Average tick that a sweep at `slot` is held against, in the window that the configuration names.
pub open spec fn reference(
    ctx: ExecuteArbSweep,
    oracle: ObservationState,
    slot: u64,
    now: u32,
) -> Result<int, ShieldError> {
    match account_error(ctx) {
        Some(error) => Err(error),
        None => if slot < ctx.shield_config.next_sweep_slot() {
            Err(ShieldError::ArbCooldownActive)
        } else {
            match oracle.twap(ctx.shield_config.twap_window_seconds, now) {
                Some(tick) => Ok(tick),
                None => Err(ShieldError::InsufficientOracleData),
            }
        },
    }
}

/// Why a sweep is refused.
pub open spec fn sweep_error(
    ctx: ExecuteArbSweep,
    sweep_amount: u64,
    reference: PriceReference,
    slot: u64,
) -> Option<ShieldError> {
    let config = ctx.shield_config;
    if account_error(ctx) is Some {
        account_error(ctx)
    } else if slot < config.next_sweep_slot() {
        Some(ShieldError::ArbCooldownActive)
    } else if spread_of(reference.spot, reference.twap) < config.min_spread_bps {
        Some(ShieldError::SpreadTooSmall)
    } else if sweep_amount < config.min_sweep_amount || sweep_amount > config.max_sweep_amount {
        Some(ShieldError::AmountBelowMin)
    } else if treasury_amount(config, sweep_amount) == 0 {
        Some(ShieldError::NoArbProfit)
    } else {
        None
    }
}

/// What a sweep comes to.
pub open spec fn sweep_outcome(
    ctx: ExecuteArbSweep,
    sweep_amount: u64,
    reference: PriceReference,
    slot: u64,
) -> Result<ArbSweepExecuted, ShieldError> {
    match sweep_error(ctx, sweep_amount, reference, slot) {
        Some(error) => Err(error),
        None => Ok(
            ArbSweepExecuted {
                pool: ctx.pool,
                sweep_amount,
                treasury_amount: treasury_amount(ctx.shield_config, sweep_amount),
                slot,
            },
        ),
    }
}

/// The configuration after a sweep that routed `amount` to the treasury.
pub open spec fn config_after_sweep(config: ShieldConfig, amount: u64, slot: u64) -> ShieldConfig {
    ShieldConfig {
        last_sweep_slot: slot,
        total_profit_captured_a: config.total_profit_captured_a.saturating_add(amount),
        ..config
    }
}

/// The counts after a sweep that routed `amount` to the treasury.
pub open spec fn sweep_counted(global: GlobalShieldState, amount: u64) -> GlobalShieldState {
    GlobalShieldState {
        total_arb_sweeps: global.total_arb_sweeps.saturating_add(1),
        total_treasury_routed: global.total_treasury_routed.saturating_add(amount),
        ..global
    }
}

/// Checks the accounts of a sweep.
pub fn check_accounts(ctx: &ExecuteArbSweep) -> (outcome: Result<(), ShieldError>)
    ensures
        outcome == (match account_error(*ctx) {
            Some(error) => Err(error),
            None => Ok(()),
        }),
{
    if ctx.arb_authority != ctx.shield_config.arb_authority {
        return Err(ShieldError::NotArbAuthority);
    }
    if ctx.shield_config.pool != ctx.pool {
        return Err(ShieldError::PoolMismatch);
    }
    if !ctx.shield_config.enabled {
        return Err(ShieldError::ShieldDisabled);
    }
    if ctx.treasury_vault != ctx.shield_config.treasury {
        return Err(ShieldError::InvalidTreasury);
    }
    Ok(())
}

/// Average tick of the pool that a sweep is held against. The host turns it into the price that
/// [`handler`] takes with the price of the pool.
pub fn reference_tick(
    ctx: &ExecuteArbSweep,
    oracle: &ObservationState,
    current_slot: u64,
    current_timestamp: u32,
) -> (outcome: Result<i32, ShieldError>)
    requires
        oracle.valid(),
        account_error(*ctx) is None ==> ctx.shield_config.next_sweep_slot() <= u64::MAX,
    ensures
        match outcome {
            Ok(tick) => reference(*ctx, *oracle, current_slot, current_timestamp)
                == Ok::<int, ShieldError>(tick as int),
            Err(error) => reference(*ctx, *oracle, current_slot, current_timestamp)
                == Err::<int, ShieldError>(error),
        },
{
    if let Err(error) = check_accounts(ctx) {
        return Err(error);
    }
    if current_slot < ctx.shield_config.last_sweep_slot + ctx.shield_config.cooldown_slots {
        return Err(ShieldError::ArbCooldownActive);
    }
    match oracle.observe_twap(ctx.shield_config.twap_window_seconds, current_timestamp) {
        Some(tick) => Ok(tick),
        None => Err(ShieldError::InsufficientOracleData),
    }
}

/// Sweeps the treasury share of `sweep_amount`. Only the authority of the pool can, after the
/// cooldown, and where the price is at least the configured spread away from its average. The host
/// reads both prices from the accounts of the pool, and moves `treasury_amount` from the vault of
/// the pool to the treasury.
pub fn handler(
    ctx: &mut ExecuteArbSweep,
    sweep_amount: u64,
    reference: PriceReference,
    current_slot: u64,
) -> (outcome: Result<ArbSweepExecuted, ShieldError>)
    requires
        account_error(*old(ctx)) is None ==> old(ctx).shield_config.next_sweep_slot() <= u64::MAX,
    ensures
        outcome == sweep_outcome(*old(ctx), sweep_amount, reference, current_slot),
        *final(ctx) == (match outcome {
            Ok(event) => ExecuteArbSweep {
                shield_config: config_after_sweep(
                    old(ctx).shield_config,
                    event.treasury_amount,
                    current_slot,
                ),
                global_shield: sweep_counted(old(ctx).global_shield, event.treasury_amount),
                ..*old(ctx)
            },
            Err(_) => *old(ctx),
        }),
{
    if let Err(error) = check_accounts(ctx) {
        return Err(error);
    }
    if current_slot < ctx.shield_config.last_sweep_slot + ctx.shield_config.cooldown_slots {
        return Err(ShieldError::ArbCooldownActive);
    }
    let (spread, _a_to_b): (u128, bool) = calculate_spread(reference.spot, reference.twap);
    if spread < ctx.shield_config.min_spread_bps as u128 {
        return Err(ShieldError::SpreadTooSmall);
    }
    if sweep_amount < ctx.shield_config.min_sweep_amount || sweep_amount
        > ctx.shield_config.max_sweep_amount {
        return Err(ShieldError::AmountBelowMin);
    }
    let amount: u64 = bps_share(sweep_amount, ctx.shield_config.treasury_share_bps);
    if amount == 0 {
        return Err(ShieldError::NoArbProfit);
    }
    ctx.shield_config.last_sweep_slot = current_slot;
    ctx.shield_config.total_profit_captured_a =
    ctx.shield_config.total_profit_captured_a.saturating_add(amount);
    ctx.global_shield.total_arb_sweeps = ctx.global_shield.total_arb_sweeps.saturating_add(1);
    ctx.global_shield.total_treasury_routed =
    ctx.global_shield.total_treasury_routed.saturating_add(amount);
    Ok(
        ArbSweepExecuted {
            pool: ctx.pool,
            sweep_amount,
            treasury_amount: amount,
            slot: current_slot,
        },
    )
}

/// Amounts paid in and out by a sweep of `amount`.
pub fn compute_arb_swap(sqrt_price: u128, liquidity: u128, amount: u64, a_to_b: bool) -> (amounts: (
    u64,
    u64,
))
    ensures
        amounts.0 == amount,
        amounts.1 == arb_output(sqrt_price as int, liquidity as int, amount as int, a_to_b),
{
    (amount, output_of(sqrt_price, liquidity, amount, a_to_b))
}

/// Spread between a price and its average in basis points, and whether the price is above.
pub fn calculate_spread(spot: u128, twap: u128) -> (spread: (u128, bool))
    ensures
        spread.0 == spread_of(spot, twap),
        spread.1 == (spot > twap),
{
    let base: u128 = if twap > 1 {
        twap
    } else {
        1
    };
    (deviation_bps(spot, twap, base), spot > twap)
}

/// Amount that closes four fifths of the gap between a price and its average, within limits.
pub fn calculate_sweep_amount(
    spot: u128,
    twap: u128,
    liquidity: u128,
    min_amount: u64,
    max_amount: u64,
    a_to_b: bool,
) -> (amount: u64)
    requires
        a_to_b ==> spot >= twap,
        !a_to_b ==> twap >= spot,
        distance(spot as int, twap as int) * 4 <= u128::MAX,
    ensures
        amount == sweep_size(
            spot as int,
            twap as int,
            liquidity as int,
            min_amount as int,
            max_amount as int,
        ),
{
    size_of_sweep(spot, twap, liquidity, min_amount, max_amount)
}

} // verus!
