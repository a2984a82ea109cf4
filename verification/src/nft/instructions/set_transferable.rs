//! Unlocking and locking the transfer of a position NFT.
use vstd::prelude::*;

use crate::keys::{same_bytes, Pubkey, TIPY_WALLET};
use crate::nft::error::NftError;
use crate::nft::state::NftPositionRecord;

verus! {

/// Admin of the program: the TiPy wallet stands in until governance names another.
pub const NEBULA_ADMIN: [u8; 32] = TIPY_WALLET;

/// Accounts of [`handler`].
#[derive(Clone, Copy, Debug)]
pub struct SetTransferable {
    pub admin: Pubkey,
    pub nft_position_record: NftPositionRecord,
}

/// An NFT was unlocked or locked.
#[derive(Clone, Copy, Debug)]
pub struct TransferabilityChanged {
    pub nft_mint: Pubkey,
    pub transferable: bool,
    pub admin: Pubkey,
}

/// What unlocking or locking an NFT comes to.
pub open spec fn flag_outcome(ctx: SetTransferable, transferable: bool) -> Result<
    TransferabilityChanged,
    NftError,
> {
    if ctx.admin.bytes@ != NEBULA_ADMIN@ {
        Err(NftError::Unauthorized)
    } else {
        Ok(
            TransferabilityChanged {
                nft_mint: ctx.nft_position_record.nft_mint,
                transferable,
                admin: ctx.admin,
            },
        )
    }
}

/// The record after it was unlocked or locked.
pub open spec fn with_flag(record: NftPositionRecord, transferable: bool) -> NftPositionRecord {
    NftPositionRecord { transferable, ..record }
}

/// Unlocks or locks the transfer of a position NFT. Only the admin can.
pub fn handler(ctx: &mut SetTransferable, transferable: bool) -> (outcome: Result<
    TransferabilityChanged,
    NftError,
>)
    ensures
        outcome == flag_outcome(*old(ctx), transferable),
        *final(ctx) == (if outcome is Ok {
            SetTransferable {
                nft_position_record: with_flag(old(ctx).nft_position_record, transferable),
                ..*old(ctx)
            }
        } else {
            *old(ctx)
        }),
{
    let admin = NEBULA_ADMIN;
    if !same_bytes(&ctx.admin.bytes, &admin) {
        return Err(NftError::Unauthorized);
    }
    ctx.nft_position_record.transferable = transferable;
    Ok(
        TransferabilityChanged {
            nft_mint: ctx.nft_position_record.nft_mint,
            transferable,
            admin: ctx.admin,
        },
    )
}

} // verus!
