//! Pool shield: three layers of defence around every swap.
//!
//! 1. Before the swap, the protocol sweeps the spread between the pool price and its average.
//! 2. A swap in a slot in which the price was moved is taxed.
//! 3. After the swap, liquidity that arrives in the same slot is suspected of a back-run.
//!
//! Converting between ticks and square-root prices is the host's: a function names the tick it
//! needs, and another takes the price that the host found for it.
use vstd::prelude::*;

use crate::amm::states::nebula_shield::ArbConfig;
use crate::amm::states::oracle::ObservationState;
use crate::amm::states::pool::PoolState;
#[allow(unused_imports)]
use crate::arith::{distance, share_of, wrap_u64};
use crate::arith::{bps_share, distance_u128, low_u16};
use crate::keys::{find_program_address, Pubkey};
#[allow(unused_imports)]
use crate::keys::{program_address, seed_bytes};
use crate::pricing::{deviation_bps, output_of, price_after, size_of_sweep};
#[allow(unused_imports)]
use crate::pricing::{arb_output, corrected_price, deviation, sweep_size};

verus! {

/// First seed of the address of a sweep configuration: `arb_config`.
pub const ARB_CONFIG_SEED: [u8; 10] = [97, 114, 98, 95, 99, 111, 110, 102, 105, 103];

/// Observations needed before a sweep.
pub const MIN_OBSERVATIONS: u16 = 3;

/// Averaging window for the detection of manipulation, in seconds.
pub const MANIPULATION_WINDOW_SECONDS: u32 = 5;

/// A sweep was made before a swap.
#[derive(Clone, Copy, Debug)]
pub struct NebulaShieldSweep {
    pub pool: Pubkey,
    pub spread_bps: u16,
    pub sweep_amount: u64,
    pub profit: u64,
    pub a_to_b: bool,
    pub slot: u64,
}

/// A swap was taxed.
#[derive(Clone, Copy, Debug)]
pub struct ManipulationTaxEvent {
    pub pool: Pubkey,
    pub swap_amount: u64,
    pub tax_amount: u64,
    pub tax_bps: u16,
    pub slot: u64,
    pub a_to_b: bool,
}

/// A sweep that is worth making.
#[derive(Clone, Copy, Debug, PartialEq, Eq, Structural)]
pub struct Sweep {
    /// Token A is paid in for token B: the price is above its average
    pub a_to_b: bool,
    /// Spread in basis points
    pub spread_bps: u128,
    /// Amount paid in
    pub amount: u64,
    /// Amount paid out beyond what was paid in
    pub profit: u64,
}

/// What the check before a swap did.
#[derive(Clone, Copy, Debug)]
pub struct SweepReport {
    pub swept: bool,
    pub a_to_b: bool,
    pub profit: u64,
    pub event: Option<NebulaShieldSweep>,
}

/// A sweep configuration as it comes with a swap: an account of unknown origin.
#[derive(Clone, Copy, Debug)]
pub struct ArbAccount {
    pub key: Pubkey,
    pub owner: Pubkey,
    /// The decoded contents; none where they do not decode
    pub config: Option<ArbConfig>,
}

// Layer 1: the sweep before a swap.
/// Whether a sweep may be made at `slot`.
pub open spec fn sweep_allowed(config: ArbConfig, oracle: &ObservationState, slot: u64) -> bool {
    &&& config.enabled
    &&& slot >= config.next_sweep_slot()
    &&& oracle.observation_index >= MIN_OBSERVATIONS
}

/// The average tick that the price is held against; none where no sweep is made.
pub open spec fn sweep_reference(
    config: ArbConfig,
    oracle: &ObservationState,
    slot: u64,
    now: u32,
) -> Option<int> {
    if sweep_allowed(config, oracle, slot) {
        oracle.twap(config.twap_window_seconds, now)
    } else {
        None
    }
}

/// The sweep against a reference square-root price; none where the spread is too small, four times
/// the gap leaves 128 bits, the amount is zero, or nothing is gained.
pub open spec fn sweep_against(pool: PoolState, config: ArbConfig, reference: u128) -> Option<
    Sweep,
> {
    let spot = pool.sqrt_price_x64;
    let a_to_b = spot > reference;
    let spread = deviation(spot as int, reference as int, reference as int);
    let amount = sweep_size(
        spot as int,
        reference as int,
        pool.liquidity as int,
        config.min_sweep_amount as int,
        config.max_sweep_amount as int,
    );
    let gain = arb_output(spot as int, pool.liquidity as int, amount, a_to_b) - amount;
    if spread < config.min_spread_bps || distance(spot as int, reference as int) * 4 > u128::MAX
        || amount == 0 || gain <= 0 {
        None
    } else {
        Some(
            Sweep {
                a_to_b,
                spread_bps: spread as u128,
                amount: amount as u64,
                profit: gain as u64,
            },
        )
    }
}

/// The sweep that [`pre_swap_arb_check`] makes.
pub open spec fn sweep_made(
    pool: PoolState,
    config: ArbConfig,
    oracle: &ObservationState,
    slot: u64,
    now: u32,
    twap_sqrt: Option<u128>,
) -> Option<Sweep> {
    match (sweep_reference(config, oracle, slot, now), twap_sqrt) {
        (Some(_), Some(reference)) => sweep_against(pool, config, reference),
        _ => None,
    }
}

/// Treasury share of a profit.
pub open spec fn treasury_share(config: ArbConfig, profit: u64) -> u64 {
    wrap_u64(share_of(profit as int, config.treasury_share_bps as int)) as u64
}

/// The pool after a sweep; its tick still stands where it was.
pub open spec fn pool_after_sweep(pool: PoolState, config: ArbConfig, sweep: Sweep) -> PoolState {
    let price = corrected_price(
        pool.sqrt_price_x64 as int,
        pool.liquidity as int,
        sweep.amount as int,
        sweep.a_to_b,
    );
    let share = treasury_share(config, sweep.profit);
    PoolState {
        sqrt_price_x64: price as u128,
        protocol_fees_token_0: if sweep.a_to_b {
            pool.protocol_fees_token_0
        } else {
            pool.protocol_fees_token_0.saturating_add(share)
        },
        protocol_fees_token_1: if sweep.a_to_b {
            pool.protocol_fees_token_1.saturating_add(share)
        } else {
            pool.protocol_fees_token_1
        },
        ..pool
    }
}

/// The configuration after a sweep at `slot`.
pub open spec fn config_after_sweep(config: ArbConfig, sweep: Sweep, slot: u64) -> ArbConfig {
    ArbConfig {
        total_profit_captured_a: if sweep.a_to_b {
            config.total_profit_captured_a
        } else {
            config.total_profit_captured_a.saturating_add(sweep.profit)
        },
        total_profit_captured_b: if sweep.a_to_b {
            config.total_profit_captured_b.saturating_add(sweep.profit)
        } else {
            config.total_profit_captured_b
        },
        last_sweep_slot: slot,
        ..config
    }
}

/// The report on a sweep at `slot`.
pub open spec fn report_of(config: ArbConfig, sweep: Option<Sweep>, slot: u64) -> SweepReport {
    match sweep {
        None => SweepReport { swept: false, a_to_b: false, profit: 0, event: None },
        Some(sweep) => SweepReport {
            swept: true,
            a_to_b: sweep.a_to_b,
            profit: sweep.profit,
            event: Some(
                NebulaShieldSweep {
                    pool: config.pool,
                    spread_bps: (sweep.spread_bps as int % 0x1_0000) as u16,
                    sweep_amount: sweep.amount,
                    profit: sweep.profit,
                    a_to_b: sweep.a_to_b,
                    slot,
                },
            ),
        },
    }
}

/// The tick whose square-root price [`pre_swap_arb_check`] needs; none where it will not sweep.
pub fn sweep_reference_tick(
    arb_config: &ArbConfig,
    oracle: &ObservationState,
    current_slot: u64,
    current_timestamp: u32,
) -> (tick: Option<i32>)
    requires
        oracle.valid(),
    ensures
        match tick {
            Some(tick) => sweep_reference(*arb_config, oracle, current_slot, current_timestamp)
                == Some(tick as int),
            None => sweep_reference(
                *arb_config,
                oracle,
                current_slot,
                current_timestamp,
            ) is None,
        },
{
    if !arb_config.enabled {
        return None;
    }
    let next: u64 = match arb_config.last_sweep_slot.checked_add(arb_config.cooldown_slots) {
        Some(next) => next,
        None => {
            return None;
        },
    };
    if current_slot < next {
        return None;
    }
    if oracle.observation_index < MIN_OBSERVATIONS {
        return None;
    }
    oracle.observe_twap(arb_config.twap_window_seconds, current_timestamp)
}

/// Plans the sweep against a reference square-root price.
pub fn plan_sweep(pool: &PoolState, arb_config: &ArbConfig, reference: u128) -> (sweep: Option<
    Sweep,
>)
    ensures
        sweep == sweep_against(*pool, *arb_config, reference),
{
    let spot: u128 = pool.sqrt_price_x64;
    let a_to_b = spot > reference;
    let spread_bps: u128 = deviation_bps(spot, reference, reference);
    if spread_bps < arb_config.min_spread_bps as u128 || distance_u128(spot, reference) > u128::MAX
        / 4 {
        return None;
    }
    let amount: u64 = size_of_sweep(
        spot,
        reference,
        pool.liquidity,
        arb_config.min_sweep_amount,
        arb_config.max_sweep_amount,
    );
    if amount == 0 {
        return None;
    }
    let (amount_in, amount_out) = compute_inline_arb(spot, pool.liquidity, amount, a_to_b);
    let profit: u64 = amount_out.saturating_sub(amount_in);
    if profit == 0 {
        return None;
    }
    Some(Sweep { a_to_b, spread_bps, amount, profit })
}

/// Amounts paid in and out by a sweep of `amount`.
pub fn compute_inline_arb(sqrt_price: u128, liquidity: u128, amount: u64, a_to_b: bool) -> (amounts:
    (u64, u64))
    ensures
        amounts.0 == amount,
        amounts.1 == arb_output(sqrt_price as int, liquidity as int, amount as int, a_to_b),
{
    (amount, output_of(sqrt_price, liquidity, amount, a_to_b))
}

/// Sweeps the spread before a swap. `twap_sqrt` is the square-root price at the tick that
/// [`sweep_reference_tick`] names, none where the host has no such price. After a sweep the host
/// hands the tick of the new price to [`adopt_tick`].
pub fn pre_swap_arb_check(
    pool: &mut PoolState,
    arb_config: &mut ArbConfig,
    oracle: &ObservationState,
    current_slot: u64,
    current_timestamp: u32,
    twap_sqrt: Option<u128>,
) -> (report: SweepReport)
    requires
        oracle.valid(),
    ensures
        ({
            let sweep = sweep_made(
                *old(pool),
                *old(arb_config),
                oracle,
                current_slot,
                current_timestamp,
                twap_sqrt,
            );
            &&& report == report_of(*old(arb_config), sweep, current_slot)
            &&& match sweep {
                None => *final(pool) == *old(pool) && *final(arb_config) == *old(arb_config),
                Some(sweep) => *final(pool) == pool_after_sweep(
                    *old(pool),
                    *old(arb_config),
                    sweep,
                ) && *final(arb_config) == config_after_sweep(
                    *old(arb_config),
                    sweep,
                    current_slot,
                ),
            }
        }),
{
    let quiet = SweepReport { swept: false, a_to_b: false, profit: 0, event: None };
    if sweep_reference_tick(arb_config, oracle, current_slot, current_timestamp).is_none() {
        return quiet;
    }
    let reference: u128 = match twap_sqrt {
        Some(price) => price,
        None => {
            return quiet;
        },
    };
    let sweep = match plan_sweep(pool, arb_config, reference) {
        Some(sweep) => sweep,
        None => {
            return quiet;
        },
    };
    pool.sqrt_price_x64 =
    price_after(pool.sqrt_price_x64, pool.liquidity, sweep.amount, sweep.a_to_b);
    let share: u64 = bps_share(sweep.profit, arb_config.treasury_share_bps);
    if sweep.a_to_b {
        arb_config.total_profit_captured_b =
        arb_config.total_profit_captured_b.saturating_add(sweep.profit);
        pool.protocol_fees_token_1 = pool.protocol_fees_token_1.saturating_add(share);
    } else {
        arb_config.total_profit_captured_a =
        arb_config.total_profit_captured_a.saturating_add(sweep.profit);
        pool.protocol_fees_token_0 = pool.protocol_fees_token_0.saturating_add(share);
    }
    arb_config.last_sweep_slot = current_slot;
    SweepReport {
        swept: true,
        a_to_b: sweep.a_to_b,
        profit: sweep.profit,
        event: Some(
            NebulaShieldSweep {
                pool: arb_config.pool,
                spread_bps: low_u16(sweep.spread_bps),
                sweep_amount: sweep.amount,
                profit: sweep.profit,
                a_to_b: sweep.a_to_b,
                slot: current_slot,
            },
        ),
    }
}

/// Moves the pool to the tick of its new price; it stays where the host found none.
pub fn adopt_tick(pool: &mut PoolState, new_tick: Option<i32>)
    ensures
        *final(pool) == (PoolState {
            tick_current: match new_tick {
                Some(tick) => tick,
                None => old(pool).tick_current,
            },
            ..*old(pool)
        }),
{
    if let Some(tick) = new_tick {
        pool.tick_current = tick;
    }
}

// Layer 2: manipulation within a slot.
/// Whether the price is further from its short average than the threshold allows. `twap_sqrt` is
/// the square-root price at that average.
pub open spec fn manipulated(
    pool: PoolState,
    oracle: &ObservationState,
    now: u32,
    threshold: u16,
    twap_sqrt: Option<u128>,
) -> bool {
    match (oracle.twap(MANIPULATION_WINDOW_SECONDS, now), twap_sqrt) {
        (Some(_), Some(reference)) => deviation(
            pool.sqrt_price_x64 as int,
            reference as int,
            reference as int,
        ) > threshold,
        _ => false,
    }
}

/// The configuration after manipulation was looked for.
pub open spec fn config_after_detection(config: ArbConfig, detected: bool) -> ArbConfig {
    if detected {
        ArbConfig {
            manipulation_detections: config.manipulation_detections.saturating_add(1),
            ..config
        }
    } else {
        config
    }
}

/// The tick whose square-root price [`detect_same_slot_manipulation`] needs.
pub fn manipulation_reference_tick(oracle: &ObservationState, current_timestamp: u32) -> (tick:
    Option<i32>)
    requires
        oracle.valid(),
    ensures
        match tick {
            Some(tick) => oracle.twap(MANIPULATION_WINDOW_SECONDS, current_timestamp) == Some(
                tick as int,
            ),
            None => oracle.twap(MANIPULATION_WINDOW_SECONDS, current_timestamp) is None,
        },
{
    oracle.observe_twap(MANIPULATION_WINDOW_SECONDS, current_timestamp)
}

/// Looks for manipulation, counts it, and returns the tax to apply in basis points: zero where
/// there is none. `twap_sqrt` is the square-root price at the tick that
/// [`manipulation_reference_tick`] names, none where the host has no such price.
pub fn detect_same_slot_manipulation(
    pool: &PoolState,
    oracle: &ObservationState,
    arb_config: &mut ArbConfig,
    current_timestamp: u32,
    manipulation_threshold_bps: u16,
    twap_sqrt: Option<u128>,
) -> (tax_bps: u16)
    requires
        oracle.valid(),
    ensures
        ({
            let detected = manipulated(
                *pool,
                oracle,
                current_timestamp,
                manipulation_threshold_bps,
                twap_sqrt,
            );
            &&& *final(arb_config) == config_after_detection(*old(arb_config), detected)
            &&& tax_bps == (if detected {
                old(arb_config).manipulation_tax_bps
            } else {
                0
            })
        }),
{
    if manipulation_reference_tick(oracle, current_timestamp).is_none() {
        return 0;
    }
    let reference: u128 = match twap_sqrt {
        Some(price) => price,
        None => {
            return 0;
        },
    };
    if deviation_bps(pool.sqrt_price_x64, reference, reference)
        > manipulation_threshold_bps as u128 {
        arb_config.manipulation_detections = arb_config.manipulation_detections.saturating_add(1);
        arb_config.manipulation_tax_bps
    } else {
        0
    }
}

// Layer 3: the lock after a swap.
/// The pool with the slot of a swap on it.
pub open spec fn slot_recorded(pool: PoolState, slot: u64) -> PoolState {
    PoolState { open_time: slot, ..pool }
}

/// Whether liquidity that moves at `slot` is suspected of a back-run: a swap was made in that slot.
pub open spec fn suspected(pool: PoolState, slot: u64) -> bool {
    pool.open_time == slot
}

/// Records the slot of a swap on the pool.
pub fn record_swap_slot(pool: &mut PoolState, current_slot: u64)
    ensures
        *final(pool) == slot_recorded(*old(pool), current_slot),
{
    pool.open_time = current_slot;
}

/// Whether liquidity that moves at `current_slot` is suspected of a back-run.
pub fn is_suspected_backrun(pool: &PoolState, current_slot: u64) -> (suspicious: bool)
    ensures
        suspicious == suspected(*pool, current_slot),
{
    pool.open_time == current_slot
}

// The layers as a swap calls them.
/// The address of the sweep configuration of a pool; none where the pool has no such address.
pub open spec fn config_address(pool_key: Pubkey, program_id: Pubkey) -> Option<Pubkey> {
    match program_address(seq![ARB_CONFIG_SEED@, pool_key.bytes@], program_id.bytes@) {
        Some((address, _bump)) => Some(Pubkey { bytes: address }),
        None => None,
    }
}

/// The configuration in `account`, if that stands at `expected` and belongs to the program.
pub open spec fn trusted_config(
    account: Option<ArbAccount>,
    expected: Pubkey,
    program_id: Pubkey,
) -> Option<ArbConfig> {
    match account {
        Some(account) => if account.key == expected && account.owner == program_id {
            account.config
        } else {
            None
        },
        None => None,
    }
}

/// `account` with its configuration replaced.
pub open spec fn with_config(account: Option<ArbAccount>, config: ArbConfig) -> Option<
    ArbAccount,
> {
    match account {
        Some(account) => Some(ArbAccount { config: Some(config), ..account }),
        None => None,
    }
}

/// Finds the address of the sweep configuration of a pool.
pub fn arb_config_address(pool_key: &Pubkey, program_id: &Pubkey) -> (address: Option<Pubkey>)
    ensures
        address == config_address(*pool_key, *program_id),
{
    let label = ARB_CONFIG_SEED;
    let seeds: [&[u8]; 2] = [label.as_slice(), pool_key.bytes.as_slice()];
    assert(seed_bytes(seeds@) =~= seq![ARB_CONFIG_SEED@, pool_key.bytes@]);
    match find_program_address(seeds.as_slice(), program_id) {
        Some((address, _bump)) => Some(address),
        None => None,
    }
}

/// Reads the configuration in `account`, if that stands at `expected` and belongs to the program.
pub fn read_trusted_config(
    account: &Option<ArbAccount>,
    expected: &Pubkey,
    program_id: &Pubkey,
) -> (config: Option<ArbConfig>)
    ensures
        config == trusted_config(*account, *expected, *program_id),
{
    match account {
        Some(account) => if account.key == *expected && account.owner == *program_id {
            account.config
        } else {
            None
        },
        None => None,
    }
}

/// The sweep made before a swap that came with `account`.
pub open spec fn sweep_with_account(
    pool: PoolState,
    observation: &ObservationState,
    account: Option<ArbAccount>,
    expected: Pubkey,
    program_id: Pubkey,
    slot: Option<u64>,
    now: u32,
    twap_sqrt: Option<u128>,
) -> Option<Sweep> {
    match (trusted_config(account, expected, program_id), slot) {
        (Some(config), Some(slot)) => sweep_made(pool, config, observation, slot, now, twap_sqrt),
        _ => None,
    }
}

/// Pool, account and report after the sweep before a swap.
pub open spec fn shield_effect(
    pool: PoolState,
    account: Option<ArbAccount>,
    sweep: Option<Sweep>,
    slot: Option<u64>,
) -> (PoolState, Option<ArbAccount>, SweepReport) {
    match sweep {
        None => (
            pool,
            account,
            SweepReport { swept: false, a_to_b: false, profit: 0, event: None },
        ),
        Some(sweep) => {
            let config = account->0.config->0;
            (
                pool_after_sweep(pool, config, sweep),
                with_config(account, config_after_sweep(config, sweep, slot->0)),
                report_of(config, Some(sweep), slot->0),
            )
        },
    }
}

/// The tick whose square-root price the sweep before a swap needs; none where it will not sweep.
pub fn shield_reference_tick(
    observation: &ObservationState,
    arb_account: &Option<ArbAccount>,
    expected_pda: &Pubkey,
    program_id: &Pubkey,
    slot: Option<u64>,
    block_timestamp: u32,
) -> (tick: Option<i32>)
    requires
        observation.valid(),
    ensures
        match (trusted_config(*arb_account, *expected_pda, *program_id), slot) {
            (Some(config), Some(slot)) => match tick {
                Some(tick) => sweep_reference(config, observation, slot, block_timestamp) == Some(
                    tick as int,
                ),
                None => sweep_reference(config, observation, slot, block_timestamp) is None,
            },
            _ => tick is None,
        },
{
    match (read_trusted_config(arb_account, expected_pda, program_id), slot) {
        (Some(config), Some(slot)) => sweep_reference_tick(
            &config,
            observation,
            slot,
            block_timestamp,
        ),
        _ => None,
    }
}

/// Sweeps before a swap, if the swap came with the configuration at `expected_pda`. Never refuses
/// the swap. `slot` is none where the host has no clock, `twap_sqrt` is the square-root price at
/// the tick that [`shield_reference_tick`] names.
pub fn pre_swap_shield_at(
    pool_state: &mut PoolState,
    observation: &ObservationState,
    arb_account: &mut Option<ArbAccount>,
    expected_pda: &Pubkey,
    program_id: &Pubkey,
    slot: Option<u64>,
    block_timestamp: u32,
    twap_sqrt: Option<u128>,
) -> (report: SweepReport)
    requires
        observation.valid(),
    ensures
        (*final(pool_state), *final(arb_account), report) == shield_effect(
            *old(pool_state),
            *old(arb_account),
            sweep_with_account(
                *old(pool_state),
                observation,
                *old(arb_account),
                *expected_pda,
                *program_id,
                slot,
                block_timestamp,
                twap_sqrt,
            ),
            slot,
        ),
{
    let quiet = SweepReport { swept: false, a_to_b: false, profit: 0, event: None };
    let account = match *arb_account {
        Some(account) => account,
        None => {
            return quiet;
        },
    };
    let mut config = match read_trusted_config(arb_account, expected_pda, program_id) {
        Some(config) => config,
        None => {
            return quiet;
        },
    };
    let slot: u64 = match slot {
        Some(slot) => slot,
        None => {
            return quiet;
        },
    };
    let report = pre_swap_arb_check(
        pool_state,
        &mut config,
        observation,
        slot,
        block_timestamp,
        twap_sqrt,
    );
    *arb_account =
    Some(ArbAccount { key: account.key, owner: account.owner, config: Some(config) });
    report
}

/// Sweeps before a swap, if the swap came with the configuration of its pool. Never refuses the
/// swap: settings or prices that leave their types make no sweep. None, with nothing changed, where
/// the swap came with an account but the pool has no configuration address.
pub fn try_pre_swap_shield(
    pool_state: &mut PoolState,
    observation: &ObservationState,
    arb_account: &mut Option<ArbAccount>,
    pool_key: &Pubkey,
    program_id: &Pubkey,
    slot: Option<u64>,
    block_timestamp: u32,
    twap_sqrt: Option<u128>,
) -> (outcome: Option<SweepReport>)
    requires
        observation.valid(),
    ensures
        ({
            let expected = config_address(*pool_key, *program_id);
            if *old(arb_account) is None || expected is Some {
                &&& outcome is Some
                &&& (*final(pool_state), *final(arb_account), outcome->0) == shield_effect(
                    *old(pool_state),
                    *old(arb_account),
                    sweep_with_account(
                        *old(pool_state),
                        observation,
                        *old(arb_account),
                        expected->0,
                        *program_id,
                        slot,
                        block_timestamp,
                        twap_sqrt,
                    ),
                    slot,
                )
            } else {
                &&& outcome is None
                &&& *final(pool_state) == *old(pool_state)
                &&& *final(arb_account) == *old(arb_account)
            }
        }),
{
    if arb_account.is_none() {
        return Some(SweepReport { swept: false, a_to_b: false, profit: 0, event: None });
    }
    let expected = match arb_config_address(pool_key, program_id) {
        Some(address) => address,
        None => {
            return None;
        },
    };
    Some(
        pre_swap_shield_at(
            pool_state,
            observation,
            arb_account,
            &expected,
            program_id,
            slot,
            block_timestamp,
            twap_sqrt,
        ),
    )
}

/// What the tax on a swap came to.
#[derive(Clone, Copy, Debug)]
pub struct TaxReport {
    /// Amount to hold back from the swap
    pub tax_amount: u64,
    pub event: Option<ManipulationTaxEvent>,
}

/// Whether the configuration that came with a swap detects manipulation.
pub open spec fn tax_detected(
    pool: PoolState,
    observation: &ObservationState,
    config: ArbConfig,
    now: u32,
    twap_sqrt: Option<u128>,
) -> bool {
    manipulated(pool, observation, now, config.threshold(), twap_sqrt)
}

/// Tax on a swap of `swap_amount`: none where its rate is above the whole, it rounds to nothing, or
/// it would take everything.
pub open spec fn tax_due(config: ArbConfig, detected: bool, swap_amount: u64) -> u64 {
    let tax = share_of(swap_amount as int, config.manipulation_tax_bps as int);
    if detected && config.manipulation_tax_bps <= 10_000 && tax < swap_amount {
        tax as u64
    } else {
        0
    }
}

/// Pool after a tax was booked on the input side.
pub open spec fn pool_after_tax(pool: PoolState, tax: u64, zero_for_one: bool) -> PoolState {
    if zero_for_one {
        PoolState {
            protocol_fees_token_0: pool.protocol_fees_token_0.saturating_add(tax),
            ..pool
        }
    } else {
        PoolState {
            protocol_fees_token_1: pool.protocol_fees_token_1.saturating_add(tax),
            ..pool
        }
    }
}

/// Configuration after a tax was booked on the input side.
pub open spec fn config_after_tax(config: ArbConfig, tax: u64, zero_for_one: bool) -> ArbConfig {
    if zero_for_one {
        ArbConfig {
            manipulation_tax_collected_a: config.manipulation_tax_collected_a.saturating_add(tax),
            ..config
        }
    } else {
        ArbConfig {
            manipulation_tax_collected_b: config.manipulation_tax_collected_b.saturating_add(tax),
            ..config
        }
    }
}

/// Pool, account and report after a swap of `swap_amount` was looked at for tax.
pub open spec fn tax_effect(
    pool: PoolState,
    observation: &ObservationState,
    account: Option<ArbAccount>,
    expected: Pubkey,
    program_id: Pubkey,
    now: u32,
    swap_amount: u64,
    zero_for_one: bool,
    slot: Option<u64>,
    twap_sqrt: Option<u128>,
) -> (PoolState, Option<ArbAccount>, TaxReport) {
    match trusted_config(account, expected, program_id) {
        None => (pool, account, TaxReport { tax_amount: 0, event: None }),
        Some(config) => {
            let detected = tax_detected(pool, observation, config, now, twap_sqrt);
            let counted = config_after_detection(config, detected);
            let tax = tax_due(config, detected, swap_amount);
            if tax == 0 {
                (pool, with_config(account, counted), TaxReport { tax_amount: 0, event: None })
            } else {
                (
                    pool_after_tax(pool, tax, zero_for_one),
                    with_config(account, config_after_tax(counted, tax, zero_for_one)),
                    TaxReport {
                        tax_amount: tax,
                        event: Some(
                            ManipulationTaxEvent {
                                pool: config.pool,
                                swap_amount,
                                tax_amount: tax,
                                tax_bps: config.manipulation_tax_bps,
                                slot: match slot {
                                    Some(slot) => slot,
                                    None => 0,
                                },
                                a_to_b: zero_for_one,
                            },
                        ),
                    },
                )
            }
        },
    }
}

/// Taxes a swap in a manipulated slot, if the swap came with the configuration at `expected_pda`.
/// The tax goes to the protocol fees of the input token, and has to be held back from the amount
/// that is swapped. Never refuses the swap. `twap_sqrt` is the square-root price at the tick that
/// [`manipulation_reference_tick`] names.
pub fn manipulation_tax_at(
    pool_state: &mut PoolState,
    observation: &ObservationState,
    arb_account: &mut Option<ArbAccount>,
    expected_pda: &Pubkey,
    program_id: &Pubkey,
    block_timestamp: u32,
    swap_amount: u64,
    zero_for_one: bool,
    slot: Option<u64>,
    twap_sqrt: Option<u128>,
) -> (report: TaxReport)
    requires
        observation.valid(),
    ensures
        (*final(pool_state), *final(arb_account), report) == tax_effect(
            *old(pool_state),
            observation,
            *old(arb_account),
            *expected_pda,
            *program_id,
            block_timestamp,
            swap_amount,
            zero_for_one,
            slot,
            twap_sqrt,
        ),
        report.tax_amount == 0 || report.tax_amount < swap_amount,
{
    let untaxed = TaxReport { tax_amount: 0, event: None };
    let account = match *arb_account {
        Some(account) => account,
        None => {
            return untaxed;
        },
    };
    let mut config = match read_trusted_config(arb_account, expected_pda, program_id) {
        Some(config) => config,
        None => {
            return untaxed;
        },
    };
    let threshold_bps: u16 = config.effective_manipulation_threshold_bps();
    let tax_bps: u16 = detect_same_slot_manipulation(
        pool_state,
        observation,
        &mut config,
        block_timestamp,
        threshold_bps,
        twap_sqrt,
    );
    if tax_bps == 0 || tax_bps > 10_000 {
        *arb_account =
        Some(ArbAccount { key: account.key, owner: account.owner, config: Some(config) });
        return untaxed;
    }
    let tax_amount: u64 = bps_share(swap_amount, tax_bps);
    if tax_amount == 0 || tax_amount >= swap_amount {
        *arb_account =
        Some(ArbAccount { key: account.key, owner: account.owner, config: Some(config) });
        return untaxed;
    }
    if zero_for_one {
        pool_state.protocol_fees_token_0 =
        pool_state.protocol_fees_token_0.saturating_add(tax_amount);
        config.manipulation_tax_collected_a =
        config.manipulation_tax_collected_a.saturating_add(tax_amount);
    } else {
        pool_state.protocol_fees_token_1 =
        pool_state.protocol_fees_token_1.saturating_add(tax_amount);
        config.manipulation_tax_collected_b =
        config.manipulation_tax_collected_b.saturating_add(tax_amount);
    }
    *arb_account =
    Some(ArbAccount { key: account.key, owner: account.owner, config: Some(config) });
    TaxReport {
        tax_amount,
        event: Some(
            ManipulationTaxEvent {
                pool: config.pool,
                swap_amount,
                tax_amount,
                tax_bps,
                slot: match slot {
                    Some(slot) => slot,
                    None => 0,
                },
                a_to_b: zero_for_one,
            },
        ),
    }
}

/// Taxes a swap in a manipulated slot, if the swap came with the configuration of its pool. None,
/// with nothing changed, where it came with an account but the pool has no configuration address.
pub fn try_apply_manipulation_tax(
    pool_state: &mut PoolState,
    observation: &ObservationState,
    arb_account: &mut Option<ArbAccount>,
    pool_key: &Pubkey,
    program_id: &Pubkey,
    block_timestamp: u32,
    swap_amount: u64,
    zero_for_one: bool,
    slot: Option<u64>,
    twap_sqrt: Option<u128>,
) -> (outcome: Option<TaxReport>)
    requires
        observation.valid(),
    ensures
        ({
            let expected = config_address(*pool_key, *program_id);
            if *old(arb_account) is None || expected is Some {
                &&& outcome is Some
                &&& (*final(pool_state), *final(arb_account), outcome->0) == tax_effect(
                    *old(pool_state),
                    observation,
                    *old(arb_account),
                    expected->0,
                    *program_id,
                    block_timestamp,
                    swap_amount,
                    zero_for_one,
                    slot,
                    twap_sqrt,
                )
            } else {
                &&& outcome is None
                &&& *final(pool_state) == *old(pool_state)
                &&& *final(arb_account) == *old(arb_account)
            }
        }),
{
    if arb_account.is_none() {
        return Some(TaxReport { tax_amount: 0, event: None });
    }
    match arb_config_address(pool_key, program_id) {
        Some(expected) => Some(
            manipulation_tax_at(
                pool_state,
                observation,
                arb_account,
                &expected,
                program_id,
                block_timestamp,
                swap_amount,
                zero_for_one,
                slot,
                twap_sqrt,
            ),
        ),
        None => None,
    }
}

} // verus!
