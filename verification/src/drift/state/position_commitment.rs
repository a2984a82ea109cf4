//! A position of which only a digest is public.
use vstd::prelude::*;

use crate::commitment::digest_of_position;
#[allow(unused_imports)]
use crate::commitment::{
    is_zero_digest, position_digest, position_preimage, preimage_determines_position,
};
use crate::keys::{same_bytes, Pubkey};
#[allow(unused_imports)]
use crate::keys::sha256_digest;

verus! {

/// First seed of the address of a committed position: `position_commitment`.
pub const POSITION_COMMITMENT_SEED: [u8; 19] = [
    112, 111, 115, 105, 116, 105, 111, 110, 95, 99, 111, 109, 109, 105, 116, 109, 101, 110, 116,
];

#[derive(Clone, Copy, Debug)]
pub struct PositionCommitment {
    /// Owner of the position
    pub owner: Pubkey,
    /// Market of the position
    pub market: Pubkey,
    /// Digest of size, leverage, entry price, liquidation price and salt
    pub commitment: [u8; 32],
    /// Collateral in units of the quote token
    pub collateral_amount: u64,
    pub is_long: bool,
    /// Slot in which the position was opened
    pub committed_at_slot: u64,
    /// Slot in which the position was last changed
    pub last_updated_slot: u64,
    /// Bump seed of the account address
    pub bump: u8,
    /// Reserved
    pub padding: [u8; 7],
}

impl PositionCommitment {
    /// Space of the account in bytes.
    pub const LEN: usize = 8 + 32 + 32 + 32 + 8 + 1 + 8 + 8 + 1 + 7;

    /// Whether the stored digest is `digest`.
    pub fn matches_digest(&self, digest: &[u8; 32]) -> (same: bool)
        ensures
            same == (digest@ == self.commitment@),
    {
        same_bytes(digest, &self.commitment)
    }

    /// Whether the revealed details are those that the position was committed to.
    pub open spec fn opened_by(
        self,
        size: u64,
        leverage_bps: u16,
        entry_price_x64: u128,
        liquidation_price_x64: u128,
        salt: [u8; 16],
    ) -> bool {
        position_digest(size, leverage_bps, entry_price_x64, liquidation_price_x64, salt)
            == self.commitment@
    }

    /// Verifies revealed details against the stored digest.
    pub fn verify_reveal(
        &self,
        revealed_size: u64,
        revealed_leverage_bps: u16,
        revealed_entry_price_x64: u128,
        revealed_liquidation_price_x64: u128,
        revealed_salt: [u8; 16],
    ) -> (matches: bool)
        ensures
            matches == self.opened_by(
                revealed_size,
                revealed_leverage_bps,
                revealed_entry_price_x64,
                revealed_liquidation_price_x64,
                revealed_salt,
            ),
    {
        let digest = digest_of_position(
            revealed_size,
            revealed_leverage_bps,
            revealed_entry_price_x64,
            revealed_liquidation_price_x64,
            &revealed_salt,
        );
        self.matches_digest(&digest)
    }

    /// A position that was committed to details is opened by them.
    pub proof fn commitment_is_opened_by_its_details(
        self,
        size: u64,
        leverage_bps: u16,
        entry_price_x64: u128,
        liquidation_price_x64: u128,
        salt: [u8; 16],
    )
        requires
            self.commitment@ == position_digest(
                size,
                leverage_bps,
                entry_price_x64,
                liquidation_price_x64,
                salt,
            ),
        ensures
            self.opened_by(size, leverage_bps, entry_price_x64, liquidation_price_x64, salt),
    {
    }

    /// Where two sets of details both open a position, their bytes have the same digest: whoever
    /// opens a position with other details than its own has found a collision of the digest.
    pub proof fn other_details_need_a_collision(
        self,
        size: u64,
        leverage_bps: u16,
        entry: u128,
        liquidation: u128,
        salt: [u8; 16],
        other_size: u64,
        other_leverage_bps: u16,
        other_entry: u128,
        other_liquidation: u128,
        other_salt: [u8; 16],
    )
        requires
            self.opened_by(size, leverage_bps, entry, liquidation, salt),
            self.opened_by(
                other_size,
                other_leverage_bps,
                other_entry,
                other_liquidation,
                other_salt,
            ),
            size != other_size || leverage_bps != other_leverage_bps || entry != other_entry
                || liquidation != other_liquidation || salt@ != other_salt@,
        ensures
            ({
                let own = position_preimage(size, leverage_bps, entry, liquidation, salt@);
                let other = position_preimage(
                    other_size,
                    other_leverage_bps,
                    other_entry,
                    other_liquidation,
                    other_salt@,
                );
                own != other && sha256_digest(own) == sha256_digest(other)
            }),
    {
        let own = position_preimage(size, leverage_bps, entry, liquidation, salt@);
        let other = position_preimage(
            other_size,
            other_leverage_bps,
            other_entry,
            other_liquidation,
            other_salt@,
        );
        if own == other {
            preimage_determines_position(
                size,
                leverage_bps,
                entry,
                liquidation,
                salt@,
                other_size,
                other_leverage_bps,
                other_entry,
                other_liquidation,
                other_salt@,
            );
        }
    }
}

impl Default for PositionCommitment {
    fn default() -> (position: PositionCommitment)
        ensures
            position.owner.is_zero(),
            position.market.is_zero(),
            is_zero_digest(position.commitment),
            position == (PositionCommitment {
                owner: position.owner,
                market: position.market,
                commitment: position.commitment,
                collateral_amount: 0,
                is_long: false,
                committed_at_slot: 0,
                last_updated_slot: 0,
                bump: 0,
                padding: [0, 0, 0, 0, 0, 0, 0],
            }),
    {
        PositionCommitment {
            owner: Pubkey::default(),
            market: Pubkey::default(),
            commitment: [0u8; 32],
            collateral_amount: 0,
            is_long: false,
            committed_at_slot: 0,
            last_updated_slot: 0,
            bump: 0,
            padding: [0, 0, 0, 0, 0, 0, 0],
        }
    }
}

} // verus!
