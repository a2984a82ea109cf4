//! Instructions on the liquidity lock of a position.
use vstd::prelude::*;

use crate::amm::error::ErrorCode;
use crate::amm::states::nebula_shield::JitGuard;
use crate::keys::Pubkey;

verus! {

/// Accounts of [`handler_init`].
#[derive(Clone, Copy, Debug)]
pub struct InitJitGuard {
    pub owner: Pubkey,
    pub pool: Pubkey,
    pub position_nft_mint: Pubkey,
    /// Bump seed of the new lock account
    pub jit_guard_bump: u8,
}

/// Accounts of [`handler_check_remove`].
#[derive(Clone, Copy, Debug)]
pub struct CheckJitGuard {
    pub owner: Pubkey,
    pub pool: Pubkey,
    pub position_nft_mint: Pubkey,
    pub jit_guard: JitGuard,
}

/// Accounts of [`handler_record_add`].
#[derive(Clone, Copy, Debug)]
pub struct RecordJitAdd {
    pub owner: Pubkey,
    pub pool: Pubkey,
    pub position_nft_mint: Pubkey,
    pub jit_guard: JitGuard,
}

/// The lock that [`handler_init`] sets up.
pub open spec fn fresh_guard(ctx: InitJitGuard, min_lock_slots: u16, slot: u64) -> JitGuard {
    JitGuard {
        pool: ctx.pool,
        position_nft_mint: ctx.position_nft_mint,
        min_lock_slots: if min_lock_slots == 0 {
            JitGuard::DEFAULT_MIN_LOCK_SLOTS
        } else {
            min_lock_slots
        },
        last_add_slot: slot,
        add_count: 1,
        remove_count: 0,
        jit_blocks: 0,
        bump: ctx.jit_guard_bump,
    }
}

/// Sets up the lock of a position when liquidity is first added.
pub fn handler_init(ctx: &InitJitGuard, min_lock_slots: u16, slot: u64) -> (outcome: Result<
    JitGuard,
    ErrorCode,
>)
    ensures
        outcome == (if min_lock_slots > JitGuard::MAX_LOCK_SLOTS {
            Err::<JitGuard, ErrorCode>(ErrorCode::InvalidTickIndex)
        } else {
            Ok(fresh_guard(*ctx, min_lock_slots, slot))
        }),
        outcome matches Ok(guard) ==> guard.valid(),
{
    if min_lock_slots > JitGuard::MAX_LOCK_SLOTS {
        return Err(ErrorCode::InvalidTickIndex);
    }
    Ok(
        JitGuard {
            pool: ctx.pool,
            position_nft_mint: ctx.position_nft_mint,
            min_lock_slots: if min_lock_slots == 0 {
                JitGuard::DEFAULT_MIN_LOCK_SLOTS
            } else {
                min_lock_slots
            },
            last_add_slot: slot,
            add_count: 1,
            remove_count: 0,
            jit_blocks: 0,
            bump: ctx.jit_guard_bump,
        },
    )
}

/// Refuses a removal within the lock, and records it either way.
pub fn handler_check_remove(ctx: &mut CheckJitGuard, current_slot: u64) -> (outcome: Result<
    (),
    ErrorCode,
>)
    requires
        old(ctx).jit_guard.unlock_slot() <= u64::MAX,
    ensures
        outcome == (if current_slot >= old(ctx).jit_guard.unlock_slot() {
            Ok::<(), ErrorCode>(())
        } else {
            Err(ErrorCode::JitBackRunDetected)
        }),
        *final(ctx) == (CheckJitGuard {
            jit_guard: old(ctx).jit_guard.removed(
                current_slot < old(ctx).jit_guard.unlock_slot(),
            ),
            ..*old(ctx)
        }),
{
    let (can_remove, _slots_remaining) = ctx.jit_guard.can_remove(current_slot);
    if !can_remove {
        ctx.jit_guard.record_remove(current_slot, true);
        return Err(ErrorCode::JitBackRunDetected);
    }
    ctx.jit_guard.record_remove(current_slot, false);
    Ok(())
}

/// Records that liquidity was added.
pub fn handler_record_add(ctx: &mut RecordJitAdd, slot: u64)
    ensures
        *final(ctx) == (RecordJitAdd {
            jit_guard: old(ctx).jit_guard.added(slot),
            ..*old(ctx)
        }),
{
    ctx.jit_guard.record_add(slot);
}

/// A position set up at `slot` is locked in that slot, and open from `MAX_LOCK_SLOTS` slots later.
pub proof fn fresh_guard_locks_at_once_and_not_forever(
    ctx: InitJitGuard,
    min_lock_slots: u16,
    slot: u64,
)
    requires
        min_lock_slots <= JitGuard::MAX_LOCK_SLOTS,
    ensures
        fresh_guard(ctx, min_lock_slots, slot).valid(),
        slot < fresh_guard(ctx, min_lock_slots, slot).unlock_slot() <= slot
            + JitGuard::MAX_LOCK_SLOTS,
{
}

} // verus!
