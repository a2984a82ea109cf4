//! Liquidity locks of positions.
use vstd::prelude::*;

use crate::keys::Pubkey;
use crate::shield::error::ShieldError;
use crate::shield::state::{GlobalShieldState, JitGuardState, ShieldConfig};

verus! {

/// Accounts of [`handler_init_guard`].
#[derive(Clone, Copy, Debug)]
pub struct InitJitGuard {
    pub owner: Pubkey,
    pub pool: Pubkey,
    pub position_nft_mint: Pubkey,
    pub shield_config: ShieldConfig,
    /// Bump seed of the new lock
    pub jit_guard_bump: u8,
}

/// Accounts of [`handler_check_jit`].
#[derive(Clone, Copy, Debug)]
pub struct CheckJitProtection {
    pub caller: Pubkey,
    pub jit_guard: JitGuardState,
    pub global_shield: GlobalShieldState,
}

/// Accounts of [`handler_record_add`].
#[derive(Clone, Copy, Debug)]
pub struct RecordJitAdd {
    pub owner: Pubkey,
    pub jit_guard: JitGuardState,
}

/// A removal was refused.
#[derive(Clone, Copy, Debug)]
pub struct JitBlocked {
    pub pool: Pubkey,
    pub position_nft_mint: Pubkey,
    pub slots_remaining: u64,
    pub current_slot: u64,
}

/// A removal was let through.
#[derive(Clone, Copy, Debug)]
pub struct JitAllowed {
    pub pool: Pubkey,
    pub position_nft_mint: Pubkey,
    pub current_slot: u64,
}

/// What is published about a removal.
#[derive(Clone, Copy, Debug)]
pub enum JitEvent {
    Blocked(JitBlocked),
    Allowed(JitAllowed),
}

/// What the check of a removal says: the event, and the byte that a calling program reads.
#[derive(Clone, Copy, Debug)]
pub struct JitVerdict {
    pub outcome: Result<(), ShieldError>,
    pub event: JitEvent,
    /// 1 where the removal is let through, 0 where not
    pub return_data: u8,
}

/// The lock in slots that a position gets: what it asks for, up to the ceiling, or that of its pool
/// where it asks for none.
pub open spec fn effective_lock(config: ShieldConfig, min_lock_slots: u16) -> u16 {
    if min_lock_slots == 0 {
        config.min_jit_lock_slots
    } else if min_lock_slots < JitGuardState::MAX_LOCK_SLOTS {
        min_lock_slots
    } else {
        JitGuardState::MAX_LOCK_SLOTS
    }
}

/// What setting up a lock comes to.
pub open spec fn guard_outcome(ctx: InitJitGuard, min_lock_slots: u16, slot: u64) -> Result<
    JitGuardState,
    ShieldError,
> {
    if ctx.shield_config.pool != ctx.pool {
        Err(ShieldError::PoolMismatch)
    } else if !ctx.shield_config.enabled {
        Err(ShieldError::ShieldDisabled)
    } else {
        Ok(
            JitGuardState {
                pool: ctx.pool,
                position_nft_mint: ctx.position_nft_mint,
                min_lock_slots: effective_lock(ctx.shield_config, min_lock_slots),
                last_add_slot: slot,
                add_count: 1,
                remove_count: 0,
                jit_blocks: 0,
                bump: ctx.jit_guard_bump,
            },
        )
    }
}

/// Sets up the lock of a position, when liquidity is first added.
pub fn handler_init_guard(ctx: &InitJitGuard, min_lock_slots: u16, slot: u64) -> (outcome: Result<
    JitGuardState,
    ShieldError,
>)
    ensures
        outcome == guard_outcome(*ctx, min_lock_slots, slot),
{
    if ctx.shield_config.pool != ctx.pool {
        return Err(ShieldError::PoolMismatch);
    }
    if !ctx.shield_config.enabled {
        return Err(ShieldError::ShieldDisabled);
    }
    let lock: u16 = if min_lock_slots == 0 {
        ctx.shield_config.min_jit_lock_slots
    } else if min_lock_slots < JitGuardState::MAX_LOCK_SLOTS {
        min_lock_slots
    } else {
        JitGuardState::MAX_LOCK_SLOTS
    };
    Ok(
        JitGuardState {
            pool: ctx.pool,
            position_nft_mint: ctx.position_nft_mint,
            min_lock_slots: lock,
            last_add_slot: slot,
            add_count: 1,
            remove_count: 0,
            jit_blocks: 0,
            bump: ctx.jit_guard_bump,
        },
    )
}

/// Whether a removal at `slot` is refused.
pub open spec fn is_blocked(guard: JitGuardState, slot: u64) -> bool {
    slot < guard.unlock_slot()
}

/// What the check of a removal at `slot` says.
pub open spec fn verdict(guard: JitGuardState, slot: u64) -> JitVerdict {
    if is_blocked(guard, slot) {
        JitVerdict {
            outcome: Err(ShieldError::JitBackRunDetected),
            event: JitEvent::Blocked(
                JitBlocked {
                    pool: guard.pool,
                    position_nft_mint: guard.position_nft_mint,
                    slots_remaining: (guard.unlock_slot() - slot) as u64,
                    current_slot: slot,
                },
            ),
            return_data: 0,
        }
    } else {
        JitVerdict {
            outcome: Ok(()),
            event: JitEvent::Allowed(
                JitAllowed {
                    pool: guard.pool,
                    position_nft_mint: guard.position_nft_mint,
                    current_slot: slot,
                },
            ),
            return_data: 1,
        }
    }
}

/// The accounts after the check of a removal at `slot`: a refusal is counted too.
pub open spec fn checked(ctx: CheckJitProtection, slot: u64) -> CheckJitProtection {
    let blocked = is_blocked(ctx.jit_guard, slot);
    CheckJitProtection {
        jit_guard: ctx.jit_guard.removed(blocked),
        global_shield: if blocked {
            GlobalShieldState {
                total_jit_blocks: ctx.global_shield.total_jit_blocks.saturating_add(1),
                ..ctx.global_shield
            }
        } else {
            ctx.global_shield
        },
        ..ctx
    }
}

/// Checks a removal of liquidity: it is refused while the lock holds.
pub fn handler_check_jit(
    ctx: &mut CheckJitProtection,
    _swap_amount: u64,
    _min_amount_out: u64,
    current_slot: u64,
) -> (said: JitVerdict)
    requires
        old(ctx).jit_guard.unlock_slot() <= u64::MAX,
    ensures
        said == verdict(old(ctx).jit_guard, current_slot),
        *final(ctx) == checked(*old(ctx), current_slot),
{
    let (can_remove, slots_remaining): (bool, u64) = ctx.jit_guard.can_remove(current_slot);
    let pool = ctx.jit_guard.pool;
    let position_nft_mint = ctx.jit_guard.position_nft_mint;
    if !can_remove {
        ctx.jit_guard.record_remove(current_slot, true);
        ctx.global_shield.total_jit_blocks = ctx.global_shield.total_jit_blocks.saturating_add(1);
        return JitVerdict {
            outcome: Err(ShieldError::JitBackRunDetected),
            event: JitEvent::Blocked(
                JitBlocked { pool, position_nft_mint, slots_remaining, current_slot },
            ),
            return_data: 0,
        };
    }
    ctx.jit_guard.record_remove(current_slot, false);
    JitVerdict {
        outcome: Ok(()),
        event: JitEvent::Allowed(JitAllowed { pool, position_nft_mint, current_slot }),
        return_data: 1,
    }
}

/// Records that liquidity was added: the lock starts anew.
pub fn handler_record_add(ctx: &mut RecordJitAdd, slot: u64)
    ensures
        *final(ctx) == (RecordJitAdd { jit_guard: old(ctx).jit_guard.added(slot), ..*old(ctx) }),
{
    ctx.jit_guard.record_add(slot);
}

} // verus!
