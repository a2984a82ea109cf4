//! Changing the shield configuration of a pool.
use vstd::prelude::*;

use crate::keys::Pubkey;
use crate::shield::error::ShieldError;
use crate::shield::state::{JitGuardState, ShieldConfig};

verus! {

/// New values; where there is none, a field stays as it is.
#[derive(Clone, Copy, Debug)]
pub struct ShieldConfigUpdate {
    pub min_spread_bps: Option<u16>,
    pub treasury_share_bps: Option<u16>,
    pub twap_window_seconds: Option<u32>,
    pub min_sweep_amount: Option<u64>,
    pub max_sweep_amount: Option<u64>,
    pub cooldown_slots: Option<u64>,
    pub manipulation_threshold_bps: Option<u16>,
    pub min_jit_lock_slots: Option<u16>,
    pub enabled: Option<bool>,
}

/// Accounts of [`handler`].
#[derive(Clone, Copy, Debug)]
pub struct UpdateShieldConfig {
    pub arb_authority: Pubkey,
    pub pool: Pubkey,
    pub shield_config: ShieldConfig,
}

/// A configuration was changed.
#[derive(Clone, Copy, Debug)]
pub struct ShieldConfigUpdated {
    pub pool: Pubkey,
    pub enabled: bool,
    pub min_spread_bps: u16,
    pub cooldown_slots: u64,
}

/// The new value, or the old one where there is none.
pub open spec fn changed<T>(update: Option<T>, current: T) -> T {
    match update {
        Some(value) => value,
        None => current,
    }
}

/// The configuration with the new values in place.
pub open spec fn updated(config: ShieldConfig, update: ShieldConfigUpdate) -> ShieldConfig {
    ShieldConfig {
        min_spread_bps: changed(update.min_spread_bps, config.min_spread_bps),
        treasury_share_bps: changed(update.treasury_share_bps, config.treasury_share_bps),
        twap_window_seconds: changed(update.twap_window_seconds, config.twap_window_seconds),
        min_sweep_amount: changed(update.min_sweep_amount, config.min_sweep_amount),
        max_sweep_amount: changed(update.max_sweep_amount, config.max_sweep_amount),
        cooldown_slots: changed(update.cooldown_slots, config.cooldown_slots),
        manipulation_threshold_bps: changed(
            update.manipulation_threshold_bps,
            config.manipulation_threshold_bps,
        ),
        min_jit_lock_slots: changed(update.min_jit_lock_slots, config.min_jit_lock_slots),
        enabled: changed(update.enabled, config.enabled),
        ..config
    }
}

/// Why an update is refused.
pub open spec fn update_error(ctx: UpdateShieldConfig, update: ShieldConfigUpdate) -> Option<
    ShieldError,
> {
    let after = updated(ctx.shield_config, update);
    if ctx.arb_authority != ctx.shield_config.arb_authority {
        Some(ShieldError::NotArbAuthority)
    } else if ctx.shield_config.pool != ctx.pool {
        Some(ShieldError::PoolMismatch)
    } else if update.min_spread_bps == Some(0u16) {
        Some(ShieldError::ZeroSpreadBps)
    } else if update.treasury_share_bps is Some && update.treasury_share_bps->0 > 10_000 {
        Some(ShieldError::InvalidShareBps)
    } else if update.twap_window_seconds is Some && update.twap_window_seconds->0 < 15 {
        Some(ShieldError::TwapWindowTooShort)
    } else if after.min_sweep_amount >= after.max_sweep_amount {
        Some(ShieldError::InvalidSweepRange)
    } else if update.min_jit_lock_slots is Some && update.min_jit_lock_slots->0
        > JitGuardState::MAX_LOCK_SLOTS {
        Some(ShieldError::LockSlotsExceedMax)
    } else {
        None
    }
}

/// What an update comes to.
pub open spec fn update_outcome(ctx: UpdateShieldConfig, update: ShieldConfigUpdate) -> Result<
    ShieldConfigUpdated,
    ShieldError,
> {
    let after = updated(ctx.shield_config, update);
    match update_error(ctx, update) {
        Some(error) => Err(error),
        None => Ok(
            ShieldConfigUpdated {
                pool: after.pool,
                enabled: after.enabled,
                min_spread_bps: after.min_spread_bps,
                cooldown_slots: after.cooldown_slots,
            },
        ),
    }
}

/// Changes the shield configuration of a pool. Only its authority can. An update that is refused
/// changes nothing.
pub fn handler(ctx: &mut UpdateShieldConfig, new_config: ShieldConfigUpdate) -> (outcome: Result<
    ShieldConfigUpdated,
    ShieldError,
>)
    ensures
        outcome == update_outcome(*old(ctx), new_config),
        *final(ctx) == (if outcome is Ok {
            UpdateShieldConfig {
                shield_config: updated(old(ctx).shield_config, new_config),
                ..*old(ctx)
            }
        } else {
            *old(ctx)
        }),
{
    if ctx.arb_authority != ctx.shield_config.arb_authority {
        return Err(ShieldError::NotArbAuthority);
    }
    if ctx.shield_config.pool != ctx.pool {
        return Err(ShieldError::PoolMismatch);
    }
    let mut shield = ctx.shield_config;
    if let Some(min_spread_bps) = new_config.min_spread_bps {
        if min_spread_bps == 0 {
            return Err(ShieldError::ZeroSpreadBps);
        }
        shield.min_spread_bps = min_spread_bps;
    }
    if let Some(treasury_share_bps) = new_config.treasury_share_bps {
        if treasury_share_bps > 10_000 {
            return Err(ShieldError::InvalidShareBps);
        }
        shield.treasury_share_bps = treasury_share_bps;
    }
    if let Some(twap_window_seconds) = new_config.twap_window_seconds {
        if twap_window_seconds < 15 {
            return Err(ShieldError::TwapWindowTooShort);
        }
        shield.twap_window_seconds = twap_window_seconds;
    }
    if let Some(min_sweep_amount) = new_config.min_sweep_amount {
        shield.min_sweep_amount = min_sweep_amount;
    }
    if let Some(max_sweep_amount) = new_config.max_sweep_amount {
        shield.max_sweep_amount = max_sweep_amount;
    }
    if shield.min_sweep_amount >= shield.max_sweep_amount {
        return Err(ShieldError::InvalidSweepRange);
    }
    if let Some(cooldown_slots) = new_config.cooldown_slots {
        shield.cooldown_slots = cooldown_slots;
    }
    if let Some(manipulation_threshold_bps) = new_config.manipulation_threshold_bps {
        shield.manipulation_threshold_bps = manipulation_threshold_bps;
    }
    if let Some(min_jit_lock_slots) = new_config.min_jit_lock_slots {
        if min_jit_lock_slots > JitGuardState::MAX_LOCK_SLOTS {
            return Err(ShieldError::LockSlotsExceedMax);
        }
        shield.min_jit_lock_slots = min_jit_lock_slots;
    }
    if let Some(enabled) = new_config.enabled {
        shield.enabled = enabled;
    }
    ctx.shield_config = shield;
    Ok(
        ShieldConfigUpdated {
            pool: shield.pool,
            enabled: shield.enabled,
            min_spread_bps: shield.min_spread_bps,
            cooldown_slots: shield.cooldown_slots,
        },
    )
}

} // verus!
