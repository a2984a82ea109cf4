//! Accounts of the shield program.
use vstd::prelude::*;

use crate::keys::Pubkey;
#[allow(unused_imports)]
use crate::keys::TIPY_WALLET;

verus! {

/// Shield configuration of a pool.
#[derive(Clone, Copy, Debug)]
pub struct ShieldConfig {
    /// Pool of the configuration
    pub pool: Pubkey,
    /// Authority allowed to sweep and to change the configuration
    pub arb_authority: Pubkey,
    /// Account that receives the treasury share of sweeps
    pub treasury: Pubkey,
    /// Smallest spread that triggers a sweep, in basis points
    pub min_spread_bps: u16,
    /// Share of a sweep that goes to the treasury, in basis points
    pub treasury_share_bps: u16,
    /// Averaging window of the reference price, in seconds
    pub twap_window_seconds: u32,
    /// Smallest amount swept
    pub min_sweep_amount: u64,
    /// Largest amount swept
    pub max_sweep_amount: u64,
    /// Slot of the last sweep
    pub last_sweep_slot: u64,
    /// Slots between sweeps
    pub cooldown_slots: u64,
    /// Deviation that counts as manipulation, in basis points
    pub manipulation_threshold_bps: u16,
    /// Lock of liquidity in slots where a position asks for none
    pub min_jit_lock_slots: u16,
    /// Profit captured in token A so far
    pub total_profit_captured_a: u64,
    /// Profit captured in token B so far
    pub total_profit_captured_b: u64,
    /// Whether the shield is on
    pub enabled: bool,
    /// Bump seed of the account address
    pub bump: u8,
}

impl ShieldConfig {
    /// Space of the account in bytes.
    pub const LEN: usize = 8 + 96 + 8 + 4 + 48 + 1 + 1;

    /// What initialization checks, and every update again.
    pub open spec fn valid(self) -> bool {
        &&& self.treasury_share_bps <= 10_000
        &&& self.min_spread_bps > 0
        &&& self.min_sweep_amount < self.max_sweep_amount
        &&& self.twap_window_seconds >= 15
        &&& self.min_jit_lock_slots <= JitGuardState::MAX_LOCK_SLOTS
        &&& self.treasury.bytes@ == TIPY_WALLET@
    }

    /// The first slot in which the next sweep is allowed.
    pub open spec fn next_sweep_slot(self) -> int {
        self.last_sweep_slot + self.cooldown_slots
    }
}

impl Default for ShieldConfig {
    fn default() -> (config: ShieldConfig)
        ensures
            config.pool.is_zero(),
            config.arb_authority.is_zero(),
            config.treasury.is_zero(),
            config == (ShieldConfig {
                pool: config.pool,
                arb_authority: config.arb_authority,
                treasury: config.treasury,
                min_spread_bps: 0,
                treasury_share_bps: 0,
                twap_window_seconds: 0,
                min_sweep_amount: 0,
                max_sweep_amount: 0,
                last_sweep_slot: 0,
                cooldown_slots: 0,
                manipulation_threshold_bps: 0,
                min_jit_lock_slots: 0,
                total_profit_captured_a: 0,
                total_profit_captured_b: 0,
                enabled: false,
                bump: 0,
            }),
    {
        ShieldConfig {
            pool: Pubkey::default(),
            arb_authority: Pubkey::default(),
            treasury: Pubkey::default(),
            min_spread_bps: 0,
            treasury_share_bps: 0,
            twap_window_seconds: 0,
            min_sweep_amount: 0,
            max_sweep_amount: 0,
            last_sweep_slot: 0,
            cooldown_slots: 0,
            manipulation_threshold_bps: 0,
            min_jit_lock_slots: 0,
            total_profit_captured_a: 0,
            total_profit_captured_b: 0,
            enabled: false,
            bump: 0,
        }
    }
}

/// Liquidity lock of a position.
#[derive(Clone, Copy, Debug)]
pub struct JitGuardState {
    /// Pool of the position
    pub pool: Pubkey,
    /// Mint that identifies the position
    pub position_nft_mint: Pubkey,
    /// Slots that have to pass between adding and removing liquidity
    pub min_lock_slots: u16,
    /// Slot in which liquidity was last added
    pub last_add_slot: u64,
    /// Additions recorded
    pub add_count: u64,
    /// Removals recorded, refused ones included
    pub remove_count: u64,
    /// Removals refused
    pub jit_blocks: u64,
    /// Bump seed of the account address
    pub bump: u8,
}

impl JitGuardState {
    /// Longest lock in slots.
    pub const MAX_LOCK_SLOTS: u16 = 100;

    /// Lock in slots where none is asked for.
    pub const DEFAULT_MIN_LOCK_SLOTS: u16 = 5;

    /// Space of the account in bytes.
    pub const LEN: usize = 8 + 64 + 2 + 32 + 1;

    /// The lock is not above the ceiling, and no more removals were refused than tried.
    pub open spec fn valid(self) -> bool {
        &&& self.min_lock_slots <= Self::MAX_LOCK_SLOTS
        &&& self.jit_blocks <= self.remove_count
    }

    /// The first slot in which liquidity can leave.
    pub open spec fn unlock_slot(self) -> int {
        self.last_add_slot + self.min_lock_slots
    }

    /// The lock after liquidity was added at `slot`.
    pub open spec fn added(self, slot: u64) -> JitGuardState {
        JitGuardState { last_add_slot: slot, add_count: self.add_count.saturating_add(1), ..self }
    }

    /// The lock after a removal was tried.
    pub open spec fn removed(self, blocked: bool) -> JitGuardState {
        JitGuardState {
            remove_count: self.remove_count.saturating_add(1),
            jit_blocks: if blocked {
                self.jit_blocks.saturating_add(1)
            } else {
                self.jit_blocks
            },
            ..self
        }
    }

    /// Whether liquidity can leave at `current_slot`, and how many slots are left if not.
    pub fn can_remove(&self, current_slot: u64) -> (answer: (bool, u64))
        requires
            self.unlock_slot() <= u64::MAX,
        ensures
            answer.0 == (current_slot >= self.unlock_slot()),
            answer.1 == (if current_slot >= self.unlock_slot() {
                0
            } else {
                self.unlock_slot() - current_slot
            }),
    {
        let unlock_slot: u64 = self.last_add_slot + self.min_lock_slots as u64;
        if current_slot >= unlock_slot {
            (true, 0)
        } else {
            (false, unlock_slot - current_slot)
        }
    }

    /// Records that liquidity was added at `slot`.
    pub fn record_add(&mut self, slot: u64)
        ensures
            *final(self) == old(self).added(slot),
    {
        self.last_add_slot = slot;
        self.add_count = self.add_count.saturating_add(1);
    }

    /// Records a removal, and whether it was refused.
    pub fn record_remove(&mut self, _slot: u64, blocked: bool)
        ensures
            *final(self) == old(self).removed(blocked),
    {
        self.remove_count = self.remove_count.saturating_add(1);
        if blocked {
            self.jit_blocks = self.jit_blocks.saturating_add(1);
        }
    }

    /// Adding liquidity and trying to remove it, at any slot, keep a lock valid.
    pub proof fn operations_keep_guard_valid(self, slot: u64, blocked: bool)
        requires
            self.valid(),
        ensures
            self.added(slot).valid(),
            self.removed(blocked).valid(),
    {
    }

    /// No valid lock holds longer than the ceiling.
    pub proof fn lock_ends_within_ceiling(self, slot: u64)
        requires
            self.valid(),
        ensures
            slot <= self.added(slot).unlock_slot() <= slot + Self::MAX_LOCK_SLOTS,
    {
    }

    /// Removals, refused or not, do not move the slot in which liquidity can leave.
    pub proof fn removals_keep_unlock_slot(self, blocked: bool)
        ensures
            self.removed(blocked).unlock_slot() == self.unlock_slot(),
    {
    }
}

impl Default for JitGuardState {
    fn default() -> (guard: JitGuardState)
        ensures
            guard.pool.is_zero(),
            guard.position_nft_mint.is_zero(),
            guard == (JitGuardState {
                pool: guard.pool,
                position_nft_mint: guard.position_nft_mint,
                min_lock_slots: 0,
                last_add_slot: 0,
                add_count: 0,
                remove_count: 0,
                jit_blocks: 0,
                bump: 0,
            }),
    {
        JitGuardState {
            pool: Pubkey::default(),
            position_nft_mint: Pubkey::default(),
            min_lock_slots: 0,
            last_add_slot: 0,
            add_count: 0,
            remove_count: 0,
            jit_blocks: 0,
            bump: 0,
        }
    }
}

/// Counts over all pools.
#[derive(Clone, Copy, Debug)]
pub struct GlobalShieldState {
    /// Admin of the program
    pub admin: Pubkey,
    /// Pools with a shield
    pub pools_protected: u64,
    /// Removals refused
    pub total_jit_blocks: u64,
    /// Sweeps made
    pub total_arb_sweeps: u64,
    /// Amount swept to the treasury
    pub total_treasury_routed: u64,
    /// Bump seed of the account address
    pub bump: u8,
}

impl GlobalShieldState {
    /// Space of the account in bytes.
    pub const LEN: usize = 8 + 32 + 32 + 1;
}

impl Default for GlobalShieldState {
    fn default() -> (global: GlobalShieldState)
        ensures
            global.admin.is_zero(),
            global == (GlobalShieldState {
                admin: global.admin,
                pools_protected: 0,
                total_jit_blocks: 0,
                total_arb_sweeps: 0,
                total_treasury_routed: 0,
                bump: 0,
            }),
    {
        GlobalShieldState {
            admin: Pubkey::default(),
            pools_protected: 0,
            total_jit_blocks: 0,
            total_arb_sweeps: 0,
            total_treasury_routed: 0,
            bump: 0,
        }
    }
}

} // verus!
