//! What the instructions of the shield program do, in terms of the numbers in their accounts.
use vstd::prelude::*;

#[allow(unused_imports)]
use crate::amm::states::oracle::ObservationState;
#[allow(unused_imports)]
use crate::arith::{lemma_share_in_range, share_is_in_basis_points};
#[allow(unused_imports)]
use crate::keys::TIPY_WALLET;
#[allow(unused_imports)]
use crate::pricing::{deviation_is_the_gap_in_basis_points, immeasurable_gap_is_the_widest};
#[allow(unused_imports)]
use crate::shield::error::ShieldError;
#[allow(unused_imports)]
use crate::shield::instructions::arb_sweep::{
    account_error, config_after_sweep, reference, spread_of, sweep_counted, sweep_outcome,
    treasury_amount,
};
use crate::shield::instructions::arb_sweep::{ExecuteArbSweep, PriceReference};
use crate::shield::instructions::check_jit::{CheckJitProtection, InitJitGuard};
#[allow(unused_imports)]
use crate::shield::instructions::check_jit::{checked, guard_outcome, verdict, JitEvent};
use crate::shield::instructions::initialize_shield::{InitializeShield, ShieldInitConfig};
#[allow(unused_imports)]
use crate::shield::instructions::initialize_shield::{init_outcome, pool_counted};
use crate::shield::instructions::update_config::{ShieldConfigUpdate, UpdateShieldConfig};
#[allow(unused_imports)]
use crate::shield::instructions::update_config::{update_outcome, updated};
use crate::shield::state::{GlobalShieldState, JitGuardState, ShieldConfig};

verus! {

// Setting up.
/// The admin sets up a shield whose share is at most the whole, whose spread is not zero, whose
/// sweeps have a range, whose window has at least 15 seconds and whose locks at most 100 slots. The
/// first of these that does not hold is the reason why it is not set up.
pub proof fn set_ups_are_refused_for_a_reason(ctx: InitializeShield, config: ShieldInitConfig)
    ensures
        ({
            let reason = if ctx.admin != ctx.global_shield.admin {
                Some(ShieldError::NotAdmin)
            } else if config.treasury_share_bps > 10_000 {
                Some(ShieldError::InvalidShareBps)
            } else if config.min_spread_bps == 0 {
                Some(ShieldError::ZeroSpreadBps)
            } else if config.min_sweep_amount >= config.max_sweep_amount {
                Some(ShieldError::InvalidSweepRange)
            } else if config.twap_window_seconds < 15 {
                Some(ShieldError::TwapWindowTooShort)
            } else if config.min_jit_lock_slots > 100 {
                Some(ShieldError::LockSlotsExceedMax)
            } else {
                None
            };
            match init_outcome(ctx, config) {
                Ok(_) => reason is None,
                Err(error) => reason == Some(error),
            }
        }),
{
}

/// A new shield holds its pool and what it was set up with, is on, routes to the fixed treasury,
/// and locks liquidity for five slots where none are given. It swept nothing yet.
pub proof fn shield_is_what_was_set_up(ctx: InitializeShield, config: ShieldInitConfig)
    requires
        init_outcome(ctx, config) is Ok,
    ensures
        ({
            let (shield, event) = init_outcome(ctx, config)->Ok_0;
            &&& shield.pool == ctx.pool
            &&& shield.arb_authority == config.arb_authority
            &&& shield.treasury.bytes@ == TIPY_WALLET@
            &&& shield.min_spread_bps == config.min_spread_bps
            &&& shield.treasury_share_bps == config.treasury_share_bps
            &&& shield.twap_window_seconds == config.twap_window_seconds
            &&& shield.min_sweep_amount == config.min_sweep_amount
            &&& shield.max_sweep_amount == config.max_sweep_amount
            &&& shield.cooldown_slots == config.cooldown_slots
            &&& shield.manipulation_threshold_bps == config.manipulation_threshold_bps
            &&& config.min_jit_lock_slots > 0 ==> shield.min_jit_lock_slots
                == config.min_jit_lock_slots
            &&& config.min_jit_lock_slots == 0 ==> shield.min_jit_lock_slots == 5
            &&& shield.bump == ctx.shield_config_bump
            &&& shield.enabled
            &&& shield.last_sweep_slot == 0
            &&& shield.total_profit_captured_a == 0
            &&& shield.total_profit_captured_b == 0
            &&& event.pool == ctx.pool
            &&& event.arb_authority == config.arb_authority
            &&& event.min_spread_bps == config.min_spread_bps
            &&& event.enabled
        }),
{
}

/// A shield that is set up counts one more pool, and changes no other count.
pub proof fn set_up_is_counted(global: GlobalShieldState)
    ensures
        ({
            let after = pool_counted(global);
            &&& after.pools_protected == (if global.pools_protected == u64::MAX {
                u64::MAX as int
            } else {
                global.pools_protected + 1
            })
            &&& after == (GlobalShieldState { pools_protected: after.pools_protected, ..global })
        }),
{
}

// Updates.
/// An update sets exactly what it names: each setting has its new value where there is one, and its
/// old value where not. It names neither pool, authority and treasury, nor what was swept.
pub proof fn update_sets_what_it_names(config: ShieldConfig, update: ShieldConfigUpdate)
    ensures
        ({
            let after = updated(config, update);
            &&& update.min_spread_bps matches Some(value) ==> after.min_spread_bps == value
            &&& update.min_spread_bps is None ==> after.min_spread_bps == config.min_spread_bps
            &&& update.treasury_share_bps matches Some(value) ==> after.treasury_share_bps == value
            &&& update.treasury_share_bps is None ==> after.treasury_share_bps
                == config.treasury_share_bps
            &&& update.twap_window_seconds matches Some(value) ==> after.twap_window_seconds
                == value
            &&& update.twap_window_seconds is None ==> after.twap_window_seconds
                == config.twap_window_seconds
            &&& update.min_sweep_amount matches Some(value) ==> after.min_sweep_amount == value
            &&& update.min_sweep_amount is None ==> after.min_sweep_amount
                == config.min_sweep_amount
            &&& update.max_sweep_amount matches Some(value) ==> after.max_sweep_amount == value
            &&& update.max_sweep_amount is None ==> after.max_sweep_amount
                == config.max_sweep_amount
            &&& update.cooldown_slots matches Some(value) ==> after.cooldown_slots == value
            &&& update.cooldown_slots is None ==> after.cooldown_slots == config.cooldown_slots
            &&& update.manipulation_threshold_bps matches Some(value)
                ==> after.manipulation_threshold_bps == value
            &&& update.manipulation_threshold_bps is None ==> after.manipulation_threshold_bps
                == config.manipulation_threshold_bps
            &&& update.min_jit_lock_slots matches Some(value) ==> after.min_jit_lock_slots == value
            &&& update.min_jit_lock_slots is None ==> after.min_jit_lock_slots
                == config.min_jit_lock_slots
            &&& update.enabled matches Some(value) ==> after.enabled == value
            &&& update.enabled is None ==> after.enabled == config.enabled
            &&& after.pool == config.pool
            &&& after.arb_authority == config.arb_authority
            &&& after.treasury == config.treasury
            &&& after.last_sweep_slot == config.last_sweep_slot
            &&& after.total_profit_captured_a == config.total_profit_captured_a
            &&& after.total_profit_captured_b == config.total_profit_captured_b
            &&& after.bump == config.bump
        }),
{
}

/// An update is made by the authority, on the configuration of the pool, where each new value is in
/// its range and the range of sweeps is one afterwards. The first of these that does not hold is
/// the reason why it is refused. One that is made is published with the configuration as it is
/// then.
pub proof fn updates_are_refused_for_a_reason(ctx: UpdateShieldConfig, update: ShieldConfigUpdate)
    ensures
        ({
            let config = ctx.shield_config;
            let low = if update.min_sweep_amount is Some {
                update.min_sweep_amount->0
            } else {
                config.min_sweep_amount
            };
            let high = if update.max_sweep_amount is Some {
                update.max_sweep_amount->0
            } else {
                config.max_sweep_amount
            };
            let reason = if ctx.arb_authority != config.arb_authority {
                Some(ShieldError::NotArbAuthority)
            } else if ctx.pool != config.pool {
                Some(ShieldError::PoolMismatch)
            } else if update.min_spread_bps is Some && update.min_spread_bps->0 == 0 {
                Some(ShieldError::ZeroSpreadBps)
            } else if update.treasury_share_bps is Some && update.treasury_share_bps->0 > 10_000 {
                Some(ShieldError::InvalidShareBps)
            } else if update.twap_window_seconds is Some && update.twap_window_seconds->0 < 15 {
                Some(ShieldError::TwapWindowTooShort)
            } else if low >= high {
                Some(ShieldError::InvalidSweepRange)
            } else if update.min_jit_lock_slots is Some && update.min_jit_lock_slots->0 > 100 {
                Some(ShieldError::LockSlotsExceedMax)
            } else {
                None
            };
            match update_outcome(ctx, update) {
                Ok(event) => {
                    &&& reason is None
                    &&& event.pool == config.pool
                    &&& event.enabled == updated(config, update).enabled
                    &&& event.min_spread_bps == updated(config, update).min_spread_bps
                    &&& event.cooldown_slots == updated(config, update).cooldown_slots
                },
                Err(error) => reason == Some(error),
            }
        }),
{
}

// Sweeps.
/// The spread is how far a price is from its average, above or below alike, in basis points of the
/// average, or of one where that is zero, rounded down.
pub proof fn spread_is_the_gap_in_basis_points(spot: u128, twap: u128, gap: int)
    requires
        gap >= 0,
        spot == twap + gap || spot == twap - gap,
        gap * 10_000 <= u128::MAX,
    ensures
        twap > 0 ==> spread_of(spot, twap) * twap <= gap * 10_000 < (spread_of(spot, twap) + 1)
            * twap,
        twap == 0 ==> spread_of(spot, twap) == gap * 10_000,
{
    let base = if twap > 0 {
        twap as int
    } else {
        1int
    };
    deviation_is_the_gap_in_basis_points(twap as int, gap, base);
    if twap == 0 {
        assert(spread_of(spot, twap) * 1 == spread_of(spot, twap));
    }
}

/// A spread too wide to be measured counts as the widest that can be.
pub proof fn immeasurable_spread_is_the_widest(spot: u128, twap: u128, gap: int)
    requires
        spot == twap + gap || spot == twap - gap,
        gap * 10_000 > u128::MAX,
    ensures
        twap > 0 ==> spread_of(spot, twap) * twap <= u128::MAX < (spread_of(spot, twap) + 1) * twap,
        twap == 0 ==> spread_of(spot, twap) == u128::MAX,
{
    let base = if twap > 0 {
        twap as int
    } else {
        1int
    };
    immeasurable_gap_is_the_widest(twap as int, gap, base);
}

/// The treasury gets the configured share of a sweep, in basis points, rounded down. Of a share
/// that does not fit 64 bits, as there is one only above the whole, it gets the low ones.
pub proof fn treasury_gets_the_configured_share(config: ShieldConfig, sweep_amount: u64)
    ensures
        ({
            let share = treasury_amount(config, sweep_amount);
            let product = sweep_amount * config.treasury_share_bps;
            &&& config.treasury_share_bps <= 10_000 ==> share * 10_000 <= product < (share + 1)
                * 10_000
            &&& share == product / 10_000 % 0x1_0000_0000_0000_0000
        }),
{
    lemma_share_in_range(sweep_amount as int, config.treasury_share_bps as int);
    share_is_in_basis_points(sweep_amount as int, config.treasury_share_bps as int);
}

/// A sweep is made by the authority, on the configuration of the pool, while it is on, to its
/// treasury, after its cooldown, at its spread, in its range, and where a share remains. The first
/// of these that does not hold is the reason why it is refused. One that is made is published with
/// its amounts and its slot.
pub proof fn sweeps_are_refused_for_a_reason(
    ctx: ExecuteArbSweep,
    sweep_amount: u64,
    prices: PriceReference,
    slot: u64,
)
    ensures
        ({
            let config = ctx.shield_config;
            let reason = if ctx.arb_authority != config.arb_authority {
                Some(ShieldError::NotArbAuthority)
            } else if ctx.pool != config.pool {
                Some(ShieldError::PoolMismatch)
            } else if !config.enabled {
                Some(ShieldError::ShieldDisabled)
            } else if ctx.treasury_vault != config.treasury {
                Some(ShieldError::InvalidTreasury)
            } else if slot - config.last_sweep_slot < config.cooldown_slots {
                Some(ShieldError::ArbCooldownActive)
            } else if spread_of(prices.spot, prices.twap) < config.min_spread_bps {
                Some(ShieldError::SpreadTooSmall)
            } else if !(config.min_sweep_amount <= sweep_amount <= config.max_sweep_amount) {
                Some(ShieldError::AmountBelowMin)
            } else if treasury_amount(config, sweep_amount) == 0 {
                Some(ShieldError::NoArbProfit)
            } else {
                None
            };
            match sweep_outcome(ctx, sweep_amount, prices, slot) {
                Ok(event) => {
                    &&& reason is None
                    &&& event.pool == ctx.pool
                    &&& event.sweep_amount == sweep_amount
                    &&& event.treasury_amount == treasury_amount(config, sweep_amount)
                    &&& event.slot == slot
                },
                Err(error) => reason == Some(error),
            }
        }),
{
}

/// A price that is a given way above its average is swept where one that is as far below is.
pub proof fn sweeps_answer_both_sides_alike(
    ctx: ExecuteArbSweep,
    sweep_amount: u64,
    above: u128,
    below: u128,
    twap: u128,
    slot: u64,
)
    requires
        above - twap == twap - below,
    ensures
        sweep_outcome(ctx, sweep_amount, (PriceReference { spot: above, twap }), slot)
            == sweep_outcome(ctx, sweep_amount, (PriceReference { spot: below, twap }), slot),
{
}

/// The average that a sweep is held against is that over the configured window; without it, or
/// before the accounts are in order and the cooldown is over, there is none.
pub proof fn reference_is_the_configured_average(
    ctx: ExecuteArbSweep,
    oracle: ObservationState,
    slot: u64,
    now: u32,
)
    ensures
        ({
            let config = ctx.shield_config;
            let average = oracle.twap(config.twap_window_seconds, now);
            match reference(ctx, oracle, slot, now) {
                Ok(tick) => {
                    &&& ctx.arb_authority == config.arb_authority
                    &&& ctx.pool == config.pool
                    &&& config.enabled
                    &&& ctx.treasury_vault == config.treasury
                    &&& slot - config.last_sweep_slot >= config.cooldown_slots
                    &&& average == Some(tick)
                },
                Err(ShieldError::NotArbAuthority) => ctx.arb_authority != config.arb_authority,
                Err(ShieldError::PoolMismatch) => ctx.pool != config.pool,
                Err(ShieldError::ShieldDisabled) => !config.enabled,
                Err(ShieldError::InvalidTreasury) => ctx.treasury_vault != config.treasury,
                Err(ShieldError::ArbCooldownActive) => {
                    &&& account_error(ctx) is None
                    &&& slot - config.last_sweep_slot < config.cooldown_slots
                },
                Err(ShieldError::InsufficientOracleData) => {
                    &&& account_error(ctx) is None
                    &&& slot - config.last_sweep_slot >= config.cooldown_slots
                    &&& average is None
                },
                Err(_) => false,
            }
        }),
{
}

/// A sweep is booked with its slot and the amount that it routed, in the configuration and in the
/// counts of the program. Nothing else changes.
pub proof fn sweep_is_booked(
    config: ShieldConfig,
    global: GlobalShieldState,
    amount: u64,
    slot: u64,
)
    ensures
        ({
            let after = config_after_sweep(config, amount, slot);
            let counted = sweep_counted(global, amount);
            &&& after.last_sweep_slot == slot
            &&& after.total_profit_captured_a == (if config.total_profit_captured_a + amount
                > u64::MAX {
                u64::MAX as int
            } else {
                config.total_profit_captured_a + amount
            })
            &&& after == (ShieldConfig {
                last_sweep_slot: after.last_sweep_slot,
                total_profit_captured_a: after.total_profit_captured_a,
                ..config
            })
            &&& counted.total_arb_sweeps == (if global.total_arb_sweeps == u64::MAX {
                u64::MAX as int
            } else {
                global.total_arb_sweeps + 1
            })
            &&& counted.total_treasury_routed == (if global.total_treasury_routed + amount
                > u64::MAX {
                u64::MAX as int
            } else {
                global.total_treasury_routed + amount
            })
            &&& counted == (GlobalShieldState {
                total_arb_sweeps: counted.total_arb_sweeps,
                total_treasury_routed: counted.total_treasury_routed,
                ..global
            })
        }),
{
}

// Locks.
/// A lock is set up for a position of the pool while its shield is on. It holds as many slots as
/// were asked for, at most 100, or those of the pool where none were; it starts now, with one
/// addition.
pub proof fn lock_is_what_was_asked_for(ctx: InitJitGuard, min_lock_slots: u16, slot: u64)
    ensures
        match guard_outcome(ctx, min_lock_slots, slot) {
            Ok(guard) => {
                &&& ctx.pool == ctx.shield_config.pool
                &&& ctx.shield_config.enabled
                &&& guard.pool == ctx.pool
                &&& guard.position_nft_mint == ctx.position_nft_mint
                &&& min_lock_slots == 0 ==> guard.min_lock_slots
                    == ctx.shield_config.min_jit_lock_slots
                &&& 0 < min_lock_slots <= 100 ==> guard.min_lock_slots == min_lock_slots
                &&& min_lock_slots > 100 ==> guard.min_lock_slots == 100
                &&& guard.last_add_slot == slot
                &&& guard.add_count == 1
                &&& guard.remove_count == 0
                &&& guard.jit_blocks == 0
                &&& guard.bump == ctx.jit_guard_bump
            },
            Err(ShieldError::PoolMismatch) => ctx.pool != ctx.shield_config.pool,
            Err(ShieldError::ShieldDisabled) => {
                &&& ctx.pool == ctx.shield_config.pool
                &&& !ctx.shield_config.enabled
            },
            Err(_) => false,
        },
{
}

/// A removal is refused as long as fewer slots than the lock have passed since liquidity was last
/// added; then the slots that are still missing are told. Either way the position is named.
pub proof fn lock_holds_its_slots(guard: JitGuardState, slot: u64)
    requires
        guard.last_add_slot + guard.min_lock_slots <= u64::MAX,
    ensures
        ({
            let said = verdict(guard, slot);
            let missing = guard.last_add_slot + guard.min_lock_slots - slot;
            match said.event {
                JitEvent::Blocked(event) => {
                    &&& missing > 0
                    &&& said.outcome == Err::<(), ShieldError>(ShieldError::JitBackRunDetected)
                    &&& said.return_data == 0
                    &&& event.pool == guard.pool
                    &&& event.position_nft_mint == guard.position_nft_mint
                    &&& event.slots_remaining == missing
                    &&& event.current_slot == slot
                },
                JitEvent::Allowed(event) => {
                    &&& missing <= 0
                    &&& said.outcome == Ok::<(), ShieldError>(())
                    &&& said.return_data == 1
                    &&& event.pool == guard.pool
                    &&& event.position_nft_mint == guard.position_nft_mint
                    &&& event.current_slot == slot
                },
            }
        }),
{
}

/// The number one higher, as far as 64 bits go.
pub open spec fn one_more(count: u64) -> int {
    if count == u64::MAX {
        u64::MAX as int
    } else {
        count + 1
    }
}

/// A removal that is tried is counted on its lock; one that is refused also as refused, there and
/// in the counts of the program. An addition is counted, and starts the lock anew. Nothing else
/// changes.
pub proof fn removals_and_additions_are_counted(
    ctx: CheckJitProtection,
    guard: JitGuardState,
    slot: u64,
)
    ensures
        ({
            let after = checked(ctx, slot);
            let refused = slot - ctx.jit_guard.last_add_slot < ctx.jit_guard.min_lock_slots;
            &&& after.jit_guard.remove_count == one_more(ctx.jit_guard.remove_count)
            &&& refused ==> after.jit_guard.jit_blocks == one_more(ctx.jit_guard.jit_blocks)
            &&& refused ==> after.global_shield.total_jit_blocks == one_more(
                ctx.global_shield.total_jit_blocks,
            )
            &&& !refused ==> after.jit_guard.jit_blocks == ctx.jit_guard.jit_blocks
            &&& !refused ==> after.global_shield.total_jit_blocks
                == ctx.global_shield.total_jit_blocks
            &&& after.jit_guard == (JitGuardState {
                remove_count: after.jit_guard.remove_count,
                jit_blocks: after.jit_guard.jit_blocks,
                ..ctx.jit_guard
            })
            &&& after.global_shield == (GlobalShieldState {
                total_jit_blocks: after.global_shield.total_jit_blocks,
                ..ctx.global_shield
            })
            &&& after.caller == ctx.caller
        }),
        ({
            let added = guard.added(slot);
            &&& added.last_add_slot == slot
            &&& added.add_count == one_more(guard.add_count)
            &&& added == (JitGuardState {
                last_add_slot: added.last_add_slot,
                add_count: added.add_count,
                ..guard
            })
            &&& added.unlock_slot() == slot + guard.min_lock_slots
        }),
        ({
            let refused = guard.removed(true);
            let made = guard.removed(false);
            &&& refused.remove_count == one_more(guard.remove_count)
            &&& refused.jit_blocks == one_more(guard.jit_blocks)
            &&& refused == (JitGuardState {
                remove_count: refused.remove_count,
                jit_blocks: refused.jit_blocks,
                ..guard
            })
            &&& made.remove_count == one_more(guard.remove_count)
            &&& made == (JitGuardState { remove_count: made.remove_count, ..guard })
        }),
{
}

} // verus!
