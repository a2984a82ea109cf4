//! Setting up the shield of a pool.
use vstd::prelude::*;

use crate::keys::{Pubkey, TIPY_WALLET};
use crate::shield::error::ShieldError;
use crate::shield::state::{GlobalShieldState, JitGuardState, ShieldConfig};

verus! {

/// Treasury of every shield. It is fixed, so that nobody can route its share elsewhere.
pub const TIPY_TREASURY: [u8; 32] = TIPY_WALLET;

/// Parameters of [`handler`].
#[derive(Clone, Copy, Debug)]
pub struct ShieldInitConfig {
    pub arb_authority: Pubkey,
    pub min_spread_bps: u16,
    pub treasury_share_bps: u16,
    pub twap_window_seconds: u32,
    pub min_sweep_amount: u64,
    pub max_sweep_amount: u64,
    pub cooldown_slots: u64,
    pub manipulation_threshold_bps: u16,
    pub min_jit_lock_slots: u16,
}

/// Accounts of [`handler`].
#[derive(Clone, Copy, Debug)]
pub struct InitializeShield {
    pub admin: Pubkey,
    pub pool: Pubkey,
    pub global_shield: GlobalShieldState,
    /// Bump seed of the new configuration
    pub shield_config_bump: u8,
}

/// The shield of a pool was set up.
#[derive(Clone, Copy, Debug)]
pub struct ShieldInitialized {
    pub pool: Pubkey,
    pub arb_authority: Pubkey,
    pub min_spread_bps: u16,
    pub enabled: bool,
}

/// Why a shield is not set up.
pub open spec fn init_error(ctx: InitializeShield, config: ShieldInitConfig) -> Option<
    ShieldError,
> {
    if ctx.admin != ctx.global_shield.admin {
        Some(ShieldError::NotAdmin)
    } else if config.treasury_share_bps > 10_000 {
        Some(ShieldError::InvalidShareBps)
    } else if config.min_spread_bps == 0 {
        Some(ShieldError::ZeroSpreadBps)
    } else if config.min_sweep_amount >= config.max_sweep_amount {
        Some(ShieldError::InvalidSweepRange)
    } else if config.twap_window_seconds < 15 {
        Some(ShieldError::TwapWindowTooShort)
    } else if config.min_jit_lock_slots > JitGuardState::MAX_LOCK_SLOTS {
        Some(ShieldError::LockSlotsExceedMax)
    } else {
        None
    }
}

/// A configuration as it is set up.
pub open spec fn fresh_config(ctx: InitializeShield, config: ShieldInitConfig) -> ShieldConfig {
    ShieldConfig {
        pool: ctx.pool,
        arb_authority: config.arb_authority,
        treasury: Pubkey { bytes: TIPY_TREASURY },
        min_spread_bps: config.min_spread_bps,
        treasury_share_bps: config.treasury_share_bps,
        twap_window_seconds: config.twap_window_seconds,
        min_sweep_amount: config.min_sweep_amount,
        max_sweep_amount: config.max_sweep_amount,
        last_sweep_slot: 0,
        cooldown_slots: config.cooldown_slots,
        manipulation_threshold_bps: config.manipulation_threshold_bps,
        min_jit_lock_slots: if config.min_jit_lock_slots == 0 {
            JitGuardState::DEFAULT_MIN_LOCK_SLOTS
        } else {
            config.min_jit_lock_slots
        },
        total_profit_captured_a: 0,
        total_profit_captured_b: 0,
        enabled: true,
        bump: ctx.shield_config_bump,
    }
}

/// The counts with one more pool.
pub open spec fn pool_counted(global: GlobalShieldState) -> GlobalShieldState {
    GlobalShieldState { pools_protected: global.pools_protected.saturating_add(1), ..global }
}

/// What setting up a shield comes to.
pub open spec fn init_outcome(ctx: InitializeShield, config: ShieldInitConfig) -> Result<
    (ShieldConfig, ShieldInitialized),
    ShieldError,
> {
    match init_error(ctx, config) {
        Some(error) => Err(error),
        None => Ok(
            (
                fresh_config(ctx, config),
                ShieldInitialized {
                    pool: ctx.pool,
                    arb_authority: config.arb_authority,
                    min_spread_bps: config.min_spread_bps,
                    enabled: true,
                },
            ),
        ),
    }
}

/// Sets up the shield of a pool. Only the admin can.
pub fn handler(ctx: &mut InitializeShield, config: ShieldInitConfig) -> (outcome: Result<
    (ShieldConfig, ShieldInitialized),
    ShieldError,
>)
    ensures
        outcome == init_outcome(*old(ctx), config),
        *final(ctx) == (if outcome is Ok {
            InitializeShield { global_shield: pool_counted(old(ctx).global_shield), ..*old(ctx) }
        } else {
            *old(ctx)
        }),
{
    if ctx.admin != ctx.global_shield.admin {
        return Err(ShieldError::NotAdmin);
    }
    if config.treasury_share_bps > 10_000 {
        return Err(ShieldError::InvalidShareBps);
    }
    if config.min_spread_bps == 0 {
        return Err(ShieldError::ZeroSpreadBps);
    }
    if config.min_sweep_amount >= config.max_sweep_amount {
        return Err(ShieldError::InvalidSweepRange);
    }
    if config.twap_window_seconds < 15 {
        return Err(ShieldError::TwapWindowTooShort);
    }
    if config.min_jit_lock_slots > JitGuardState::MAX_LOCK_SLOTS {
        return Err(ShieldError::LockSlotsExceedMax);
    }
    let shield = ShieldConfig {
        pool: ctx.pool,
        arb_authority: config.arb_authority,
        treasury: Pubkey { bytes: TIPY_TREASURY },
        min_spread_bps: config.min_spread_bps,
        treasury_share_bps: config.treasury_share_bps,
        twap_window_seconds: config.twap_window_seconds,
        min_sweep_amount: config.min_sweep_amount,
        max_sweep_amount: config.max_sweep_amount,
        last_sweep_slot: 0,
        cooldown_slots: config.cooldown_slots,
        manipulation_threshold_bps: config.manipulation_threshold_bps,
        min_jit_lock_slots: if config.min_jit_lock_slots == 0 {
            JitGuardState::DEFAULT_MIN_LOCK_SLOTS
        } else {
            config.min_jit_lock_slots
        },
        total_profit_captured_a: 0,
        total_profit_captured_b: 0,
        enabled: true,
        bump: ctx.shield_config_bump,
    };
    ctx.global_shield.pools_protected = ctx.global_shield.pools_protected.saturating_add(1);
    let event = ShieldInitialized {
        pool: ctx.pool,
        arb_authority: config.arb_authority,
        min_spread_bps: config.min_spread_bps,
        enabled: true,
    };
    Ok((shield, event))
}

} // verus!
