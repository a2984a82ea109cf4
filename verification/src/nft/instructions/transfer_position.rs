//! Transferring a position to a new owner.
use vstd::prelude::*;

use crate::keys::Pubkey;
use crate::nft::error::NftError;
use crate::nft::state::NftPositionRecord;

verus! {

/// Accounts of [`handler`].
#[derive(Clone, Copy, Debug)]
pub struct TransferPosition {
    pub owner: Pubkey,
    pub nft_mint: Pubkey,
    pub new_owner: Pubkey,
    pub nft_position_record: NftPositionRecord,
}

/// A position changed hands.
#[derive(Clone, Copy, Debug)]
pub struct PositionTransferred {
    pub nft_mint: Pubkey,
    pub pool_id: Pubkey,
    pub from: Pubkey,
    pub to: Pubkey,
}

/// A transfer as the host carries it out: `tokens` of the mint move from the owner to the new one.
#[derive(Clone, Copy, Debug)]
pub struct PositionMove {
    pub tokens: u64,
    pub event: PositionTransferred,
}

/// What a transfer comes to.
pub open spec fn transfer_outcome(ctx: TransferPosition) -> Result<PositionMove, NftError> {
    let record = ctx.nft_position_record;
    if !record.transferable {
        Err(NftError::NftNotTransferable)
    } else if record.owner != ctx.owner {
        Err(NftError::NotPositionOwner)
    } else {
        Ok(
            PositionMove {
                tokens: 1,
                event: PositionTransferred {
                    nft_mint: ctx.nft_mint,
                    pool_id: record.pool_id,
                    from: record.owner,
                    to: ctx.new_owner,
                },
            },
        )
    }
}

/// The record after its position went to `new_owner`.
pub open spec fn transferred(record: NftPositionRecord, new_owner: Pubkey) -> NftPositionRecord {
    NftPositionRecord { owner: new_owner, ..record }
}

/// Transfers a position, if its NFT is unlocked. Only its owner can.
pub fn handler(ctx: &mut TransferPosition) -> (outcome: Result<PositionMove, NftError>)
    ensures
        outcome == transfer_outcome(*old(ctx)),
        *final(ctx) == (if outcome is Ok {
            TransferPosition {
                nft_position_record: transferred(
                    old(ctx).nft_position_record,
                    old(ctx).new_owner,
                ),
                ..*old(ctx)
            }
        } else {
            *old(ctx)
        }),
{
    if !ctx.nft_position_record.transferable {
        return Err(NftError::NftNotTransferable);
    }
    if ctx.nft_position_record.owner != ctx.owner {
        return Err(NftError::NotPositionOwner);
    }
    let old_owner = ctx.nft_position_record.owner;
    let new_owner = ctx.new_owner;
    ctx.nft_position_record.owner = new_owner;
    Ok(
        PositionMove {
            tokens: 1,
            event: PositionTransferred {
                nft_mint: ctx.nft_mint,
                pool_id: ctx.nft_position_record.pool_id,
                from: old_owner,
                to: new_owner,
            },
        },
    )
}

} // verus!
