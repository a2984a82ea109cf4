use nebula::amm::error::ErrorCode;
use nebula::amm::instructions::jit_protection::{
    handler_check_remove, handler_init, handler_record_add, CheckJitGuard, InitJitGuard,
    RecordJitAdd,
};
use nebula::amm::states::nebula_shield::JitGuard;
use nebula::keys::Pubkey;

fn key(n: u8) -> Pubkey {
    Pubkey { bytes: [n; 32] }
}

fn guard(lock: u16, slot: u64) -> Result<JitGuard, ErrorCode> {
    let ctx = InitJitGuard {
        owner: key(1),
        pool: key(2),
        position_nft_mint: key(3),
        jit_guard_bump: 7,
    };
    handler_init(&ctx, lock, slot)
}

#[test]
fn lock_has_a_default_and_a_ceiling() {
    assert_eq!(guard(0, 50).unwrap().min_lock_slots, 5);
    assert_eq!(guard(100, 50).unwrap().min_lock_slots, 100);
    assert_eq!(guard(101, 50).unwrap_err(), ErrorCode::InvalidTickIndex);
    let g = guard(9, 50).unwrap();
    assert_eq!((g.add_count, g.remove_count, g.jit_blocks, g.last_add_slot, g.bump), (1, 0, 0, 50, 7));
    assert_eq!(JitGuard::LEN, 107);
}

#[test]
fn removal_within_the_lock_is_refused_and_counted() {
    let mut ctx = CheckJitGuard {
        owner: key(1),
        pool: key(2),
        position_nft_mint: key(3),
        jit_guard: guard(5, 50).unwrap(),
    };
    assert_eq!(ctx.jit_guard.can_remove(52), (false, 3));
    assert_eq!(handler_check_remove(&mut ctx, 54), Err(ErrorCode::JitBackRunDetected));
    assert_eq!((ctx.jit_guard.remove_count, ctx.jit_guard.jit_blocks), (1, 1));
    assert_eq!(ctx.jit_guard.can_remove(55), (true, 0));
    assert_eq!(handler_check_remove(&mut ctx, 55), Ok(()));
    assert_eq!((ctx.jit_guard.remove_count, ctx.jit_guard.jit_blocks), (2, 1));
}

#[test]
fn adding_liquidity_starts_the_lock_anew() {
    let mut ctx = RecordJitAdd {
        owner: key(1),
        pool: key(2),
        position_nft_mint: key(3),
        jit_guard: guard(5, 50).unwrap(),
    };
    handler_record_add(&mut ctx, 60);
    assert_eq!((ctx.jit_guard.add_count, ctx.jit_guard.last_add_slot), (2, 60));
    assert_eq!(ctx.jit_guard.can_remove(64), (false, 1));
    ctx.jit_guard.record_remove(64, true);
    ctx.jit_guard.record_remove(65, false);
    assert_eq!((ctx.jit_guard.remove_count, ctx.jit_guard.jit_blocks), (2, 1));
    ctx.jit_guard.record_add(70);
    assert_eq!(ctx.jit_guard.can_remove(74), (false, 1));
}

#[test]
fn default_guard_is_all_zeros() {
    let g = JitGuard::default();
    assert!(g.pool == key(0) && g.position_nft_mint == key(0));
    assert_eq!((g.min_lock_slots, g.last_add_slot, g.add_count), (0, 0, 0));
    assert_eq!((g.remove_count, g.jit_blocks, g.bump), (0, 0, 0));
}
