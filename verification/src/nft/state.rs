//! Record of a position NFT.
use vstd::prelude::*;

use crate::keys::Pubkey;

verus! {

/// One record per NFT, at the address derived from `nft_position` and the mint.
#[derive(Clone, Copy, Debug)]
pub struct NftPositionRecord {
    /// Mint of the NFT
    pub nft_mint: Pubkey,
    /// Pool of the position
    pub pool_id: Pubkey,
    /// Lower end of the price range
    pub tick_lower: i32,
    /// Upper end of the price range
    pub tick_upper: i32,
    /// Owner of the position
    pub owner: Pubkey,
    /// Whether the NFT can be transferred
    pub transferable: bool,
    /// Bump seed of the account address
    pub bump: u8,
}

impl NftPositionRecord {
    /// Space of the account in bytes, without its discriminator.
    pub const LEN: usize = 96 + 8 + 1 + 1;

    /// The price range is not empty.
    pub open spec fn valid(self) -> bool {
        self.tick_lower < self.tick_upper
    }
}

impl Default for NftPositionRecord {
    fn default() -> (record: NftPositionRecord)
        ensures
            record.nft_mint.is_zero(),
            record.pool_id.is_zero(),
            record.owner.is_zero(),
            record == (NftPositionRecord {
                nft_mint: record.nft_mint,
                pool_id: record.pool_id,
                tick_lower: 0,
                tick_upper: 0,
                owner: record.owner,
                transferable: false,
                bump: 0,
            }),
    {
        NftPositionRecord {
            nft_mint: Pubkey::default(),
            pool_id: Pubkey::default(),
            tick_lower: 0,
            tick_upper: 0,
            owner: Pubkey::default(),
            transferable: false,
            bump: 0,
        }
    }
}

} // verus!
