//! Burning the NFT of a closed position.
use vstd::prelude::*;

use crate::keys::Pubkey;
use crate::nft::error::NftError;
use crate::nft::state::NftPositionRecord;

verus! {

/// Accounts of [`handler`].
#[derive(Clone, Copy, Debug)]
pub struct BurnPositionNft {
    pub owner: Pubkey,
    pub nft_mint: Pubkey,
    /// Record of the position; none where it is closed
    pub nft_position_record: Option<NftPositionRecord>,
}

/// A position NFT was burned.
#[derive(Clone, Copy, Debug)]
pub struct PositionNftBurned {
    pub nft_mint: Pubkey,
    pub pool_id: Pubkey,
    pub owner: Pubkey,
}

/// A burn as the host carries it out.
#[derive(Clone, Copy, Debug)]
pub struct PositionBurn {
    /// Tokens of the mint that are burned out of the owner's account
    pub tokens: u64,
    /// Account that receives the lamports of the closed record
    pub rent_to: Pubkey,
    pub event: PositionNftBurned,
}

/// What a burn comes to.
pub open spec fn burn_outcome(ctx: BurnPositionNft) -> Result<PositionBurn, NftError> {
    match ctx.nft_position_record {
        None => Err(NftError::AccountNotInitialized),
        Some(record) => if record.owner != ctx.owner {
            Err(NftError::NotPositionOwner)
        } else {
            Ok(
                PositionBurn {
                    tokens: 1,
                    rent_to: ctx.owner,
                    event: PositionNftBurned {
                        nft_mint: ctx.nft_mint,
                        pool_id: record.pool_id,
                        owner: ctx.owner,
                    },
                },
            )
        },
    }
}

/// The accounts after a burn: the record is closed.
pub open spec fn after_burn(ctx: BurnPositionNft) -> BurnPositionNft {
    BurnPositionNft { nft_position_record: None, ..ctx }
}

/// Burns the NFT of a position, and closes its record in favour of the owner. Only the owner can.
pub fn handler(ctx: &mut BurnPositionNft) -> (outcome: Result<PositionBurn, NftError>)
    ensures
        outcome == burn_outcome(*old(ctx)),
        *final(ctx) == (if outcome is Ok {
            after_burn(*old(ctx))
        } else {
            *old(ctx)
        }),
{
    let record = match ctx.nft_position_record {
        Some(record) => record,
        None => {
            return Err(NftError::AccountNotInitialized);
        },
    };
    if record.owner != ctx.owner {
        return Err(NftError::NotPositionOwner);
    }
    ctx.nft_position_record = None;
    Ok(
        PositionBurn {
            tokens: 1,
            rent_to: ctx.owner,
            event: PositionNftBurned {
                nft_mint: ctx.nft_mint,
                pool_id: record.pool_id,
                owner: ctx.owner,
            },
        },
    )
}

} // verus!
