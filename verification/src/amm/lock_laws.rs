//! What the liquidity lock of a position does, in terms of the numbers in its account.
use vstd::prelude::*;

#[allow(unused_imports)]
use crate::amm::instructions::jit_protection::fresh_guard;
use crate::amm::instructions::jit_protection::InitJitGuard;
use crate::amm::states::nebula_shield::JitGuard;

verus! {

/// A new lock holds its pool and its position, and the slots that were asked for, or five where
/// none were. It starts now, with one addition and no removals.
pub proof fn lock_is_what_was_set_up(ctx: InitJitGuard, min_lock_slots: u16, slot: u64)
    ensures
        ({
            let guard = fresh_guard(ctx, min_lock_slots, slot);
            &&& guard.pool == ctx.pool
            &&& guard.position_nft_mint == ctx.position_nft_mint
            &&& min_lock_slots > 0 ==> guard.min_lock_slots == min_lock_slots
            &&& min_lock_slots == 0 ==> guard.min_lock_slots == 5
            &&& guard.last_add_slot == slot
            &&& guard.add_count == 1
            &&& guard.remove_count == 0
            &&& guard.jit_blocks == 0
            &&& guard.bump == ctx.jit_guard_bump
        }),
        JitGuard::MAX_LOCK_SLOTS == 100,
{
}

/// The number one higher, as far as 64 bits go.
pub open spec fn one_more(count: u64) -> int {
    if count == u64::MAX {
        u64::MAX as int
    } else {
        count + 1
    }
}

/// An addition is counted, and liquidity can leave again as many slots after it as the lock holds.
/// Nothing else changes.
pub proof fn addition_starts_the_lock_anew(guard: JitGuard, slot: u64)
    ensures
        ({
            let after = guard.added(slot);
            &&& after.unlock_slot() - slot == guard.min_lock_slots
            &&& after.last_add_slot == slot
            &&& after.add_count == one_more(guard.add_count)
            &&& after == (JitGuard {
                last_add_slot: after.last_add_slot,
                add_count: after.add_count,
                ..guard
            })
        }),
        guard.unlock_slot() - guard.last_add_slot == guard.min_lock_slots,
{
}

/// A removal that is tried is counted, one that is refused also as refused. Nothing else changes.
pub proof fn removal_is_counted(guard: JitGuard)
    ensures
        ({
            let refused = guard.removed(true);
            let made = guard.removed(false);
            &&& refused.remove_count == one_more(guard.remove_count)
            &&& refused.jit_blocks == one_more(guard.jit_blocks)
            &&& refused == (JitGuard {
                remove_count: refused.remove_count,
                jit_blocks: refused.jit_blocks,
                ..guard
            })
            &&& made.remove_count == one_more(guard.remove_count)
            &&& made == (JitGuard { remove_count: made.remove_count, ..guard })
        }),
{
}

} // verus!
