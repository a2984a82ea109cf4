//! Pool shield accounts: the sweep configuration of a pool, and the liquidity lock of a position.
use vstd::prelude::*;

use crate::keys::Pubkey;

verus! {

/// Configuration of the protocol sweep on a pool.
#[derive(Clone, Copy, Debug)]
pub struct ArbConfig {
    /// The pool this configuration belongs to
    pub pool: Pubkey,
    /// Authority allowed to sweep
    pub arb_authority: Pubkey,
    /// Token account that receives the treasury share of sweep profit
    pub treasury: Pubkey,
    /// Smallest spread, in basis points, that triggers a sweep
    pub min_spread_bps: u16,
    /// Share of sweep profit that goes to the treasury, in basis points
    pub treasury_share_bps: u16,
    /// Averaging window of the reference price, in seconds
    pub twap_window_seconds: u32,
    /// Smallest amount swept
    pub min_sweep_amount: u64,
    /// Largest amount swept
    pub max_sweep_amount: u64,
    /// Slot of the last sweep
    pub last_sweep_slot: u64,
    /// Slots between sweeps
    pub cooldown_slots: u64,
    /// Profit captured in token A so far
    pub total_profit_captured_a: u64,
    /// Profit captured in token B so far
    pub total_profit_captured_b: u64,
    /// Whether the sweep is on
    pub enabled: bool,
    /// Bump seed of the account address
    pub bump: u8,
    /// Tax on a swap in a manipulated slot, in basis points
    pub manipulation_tax_bps: u16,
    /// Manipulation tax collected in token A so far
    pub manipulation_tax_collected_a: u64,
    /// Manipulation tax collected in token B so far
    pub manipulation_tax_collected_b: u64,
    /// How often manipulation was detected
    pub manipulation_detections: u64,
    /// Deviation above which price movement within a slot counts as manipulation, in basis points;
    /// zero stands for the default
    pub manipulation_threshold_bps: u16,
}

impl ArbConfig {
    /// Deviation threshold where none is configured: five percent.
    pub const DEFAULT_MANIPULATION_THRESHOLD_BPS: u16 = 500;

    /// Space of the account in bytes.
    pub const LEN: usize = 8 + 96 + 4 + 4 + 48 + 1 + 1 + 2 + 24 + 2;

    /// What initialization checks and nothing afterwards changes.
    pub open spec fn valid(self) -> bool {
        &&& self.treasury_share_bps <= 10_000
        &&& self.min_spread_bps > 0
        &&& self.min_sweep_amount < self.max_sweep_amount
        &&& self.twap_window_seconds >= 15
    }

    /// The first slot in which the next sweep is allowed.
    pub open spec fn next_sweep_slot(self) -> int {
        self.last_sweep_slot + self.cooldown_slots
    }

    /// The deviation threshold in force.
    pub open spec fn threshold(self) -> u16 {
        if self.manipulation_threshold_bps == 0 {
            Self::DEFAULT_MANIPULATION_THRESHOLD_BPS
        } else {
            self.manipulation_threshold_bps
        }
    }

    /// The deviation threshold in force: the configured one, or the default where that is zero.
    pub fn effective_manipulation_threshold_bps(&self) -> (threshold: u16)
        ensures
            threshold == self.threshold(),
            threshold > 0,
    {
        if self.manipulation_threshold_bps == 0 {
            Self::DEFAULT_MANIPULATION_THRESHOLD_BPS
        } else {
            self.manipulation_threshold_bps
        }
    }
}

impl Default for ArbConfig {
    fn default() -> (config: ArbConfig)
        ensures
            config.pool.is_zero(),
            config.arb_authority.is_zero(),
            config.treasury.is_zero(),
            config == (ArbConfig {
                pool: config.pool,
                arb_authority: config.arb_authority,
                treasury: config.treasury,
                min_spread_bps: 0,
                treasury_share_bps: 0,
                twap_window_seconds: 0,
                min_sweep_amount: 0,
                max_sweep_amount: 0,
                last_sweep_slot: 0,
                cooldown_slots: 0,
                total_profit_captured_a: 0,
                total_profit_captured_b: 0,
                enabled: false,
                bump: 0,
                manipulation_tax_bps: 0,
                manipulation_tax_collected_a: 0,
                manipulation_tax_collected_b: 0,
                manipulation_detections: 0,
                manipulation_threshold_bps: 0,
            }),
    {
        ArbConfig {
            pool: Pubkey::default(),
            arb_authority: Pubkey::default(),
            treasury: Pubkey::default(),
            min_spread_bps: 0,
            treasury_share_bps: 0,
            twap_window_seconds: 0,
            min_sweep_amount: 0,
            max_sweep_amount: 0,
            last_sweep_slot: 0,
            cooldown_slots: 0,
            total_profit_captured_a: 0,
            total_profit_captured_b: 0,
            enabled: false,
            bump: 0,
            manipulation_tax_bps: 0,
            manipulation_tax_collected_a: 0,
            manipulation_tax_collected_b: 0,
            manipulation_detections: 0,
            manipulation_threshold_bps: 0,
        }
    }
}

/// Liquidity lock of a position.
#[derive(Clone, Copy, Debug)]
pub struct JitGuard {
    /// Pool of the position
    pub pool: Pubkey,
    /// Mint that identifies the position
    pub position_nft_mint: Pubkey,
    /// Slots that have to pass between adding and removing liquidity
    pub min_lock_slots: u16,
    /// Slot in which liquidity was last added
    pub last_add_slot: u64,
    /// Additions recorded
    pub add_count: u64,
    /// Removals recorded, refused ones included
    pub remove_count: u64,
    /// Removals refused
    pub jit_blocks: u64,
    /// Bump seed of the account address
    pub bump: u8,
}

impl JitGuard {
    /// Longest lock in slots.
    pub const MAX_LOCK_SLOTS: u16 = 100;

    /// Lock in slots where none is asked for.
    pub const DEFAULT_MIN_LOCK_SLOTS: u16 = 5;

    /// Space of the account in bytes.
    pub const LEN: usize = 8 + 64 + 2 + 32 + 1;

    /// The lock is neither empty nor above the ceiling, and no more removals were refused than
    /// tried.
    pub open spec fn valid(self) -> bool {
        &&& 1 <= self.min_lock_slots <= Self::MAX_LOCK_SLOTS
        &&& self.jit_blocks <= self.remove_count
    }

    /// The first slot in which liquidity can leave.
    pub open spec fn unlock_slot(self) -> int {
        self.last_add_slot + self.min_lock_slots
    }

    /// The lock after liquidity was added at `slot`.
    pub open spec fn added(self, slot: u64) -> JitGuard {
        JitGuard { last_add_slot: slot, add_count: self.add_count.saturating_add(1), ..self }
    }

    /// The lock after a removal was tried.
    pub open spec fn removed(self, blocked: bool) -> JitGuard {
        JitGuard {
            remove_count: self.remove_count.saturating_add(1),
            jit_blocks: if blocked {
                self.jit_blocks.saturating_add(1)
            } else {
                self.jit_blocks
            },
            ..self
        }
    }

    /// Whether liquidity can leave at `current_slot`, and how many slots are left if not.
    pub fn can_remove(&self, current_slot: u64) -> (answer: (bool, u64))
        requires
            self.unlock_slot() <= u64::MAX,
        ensures
            answer.0 == (current_slot >= self.unlock_slot()),
            answer.1 == (if current_slot >= self.unlock_slot() {
                0
            } else {
                self.unlock_slot() - current_slot
            }),
    {
        let unlock_slot: u64 = self.last_add_slot + self.min_lock_slots as u64;
        if current_slot >= unlock_slot {
            (true, 0)
        } else {
            (false, unlock_slot - current_slot)
        }
    }

    /// Records that liquidity was added at `slot`.
    pub fn record_add(&mut self, slot: u64)
        ensures
            *final(self) == old(self).added(slot),
    {
        self.last_add_slot = slot;
        self.add_count = self.add_count.saturating_add(1);
    }

    /// Records a removal, and whether it was refused.
    pub fn record_remove(&mut self, _slot: u64, blocked: bool)
        ensures
            *final(self) == old(self).removed(blocked),
    {
        self.remove_count = self.remove_count.saturating_add(1);
        if blocked {
            self.jit_blocks = self.jit_blocks.saturating_add(1);
        }
    }

    /// Adding liquidity and trying to remove it, at any slot, keep a lock valid.
    pub proof fn operations_keep_guard_valid(self, slot: u64, blocked: bool)
        requires
            self.valid(),
        ensures
            self.added(slot).valid(),
            self.removed(blocked).valid(),
    {
    }

    /// No valid lock holds longer than the ceiling: liquidity added at `slot` can leave
    /// `MAX_LOCK_SLOTS` slots later, and not within the slot itself.
    pub proof fn lock_ends_within_ceiling(self, slot: u64)
        requires
            self.valid(),
        ensures
            slot < self.added(slot).unlock_slot() <= slot + Self::MAX_LOCK_SLOTS,
    {
    }

    /// Removals, refused or not, do not move the slot in which liquidity can leave.
    pub proof fn removals_keep_unlock_slot(self, blocked: bool)
        ensures
            self.removed(blocked).unlock_slot() == self.unlock_slot(),
    {
    }
}

impl Default for JitGuard {
    fn default() -> (guard: JitGuard)
        ensures
            guard.pool.is_zero(),
            guard.position_nft_mint.is_zero(),
            guard == (JitGuard {
                pool: guard.pool,
                position_nft_mint: guard.position_nft_mint,
                min_lock_slots: 0,
                last_add_slot: 0,
                add_count: 0,
                remove_count: 0,
                jit_blocks: 0,
                bump: 0,
            }),
    {
        JitGuard {
            pool: Pubkey::default(),
            position_nft_mint: Pubkey::default(),
            min_lock_slots: 0,
            last_add_slot: 0,
            add_count: 0,
            remove_count: 0,
            jit_blocks: 0,
            bump: 0,
        }
    }
}

} // verus!
