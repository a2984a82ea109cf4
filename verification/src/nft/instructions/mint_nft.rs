//! Minting the NFT of a position.
use vstd::prelude::*;

use crate::keys::{same_bytes, Pubkey, TIPY_WALLET};
use crate::nft::error::NftError;
use crate::nft::state::NftPositionRecord;

verus! {

/// Treasury that receives the fee of a mint.
pub const TIPY_TREASURY: [u8; 32] = TIPY_WALLET;

/// Fee of a mint in lamports: a thousandth of the native token.
pub const MINT_FEE_LAMPORTS: u64 = 1_000_000;

/// Accounts of [`handler`].
#[derive(Clone, Copy, Debug)]
pub struct MintPositionNft {
    /// Who opens the position
    pub owner: Pubkey,
    /// The new mint
    pub nft_mint: Pubkey,
    pub tipy_treasury: Pubkey,
    /// Bump seed of the new record
    pub nft_position_record_bump: u8,
}

/// A position NFT was minted.
#[derive(Clone, Copy, Debug)]
pub struct PositionNftMinted {
    pub nft_mint: Pubkey,
    pub pool_id: Pubkey,
    pub tick_lower: i32,
    pub tick_upper: i32,
    pub owner: Pubkey,
}

/// A mint as the host carries it out: the owner pays `fee_lamports` to the treasury and receives
/// `tokens` of the new mint.
#[derive(Clone, Copy, Debug)]
pub struct PositionMint {
    pub record: NftPositionRecord,
    pub fee_lamports: u64,
    pub tokens: u64,
    pub event: PositionNftMinted,
}

/// Why a position NFT is not minted.
pub open spec fn mint_error(ctx: MintPositionNft, tick_lower: i32, tick_upper: i32) -> Option<
    NftError,
> {
    if ctx.tipy_treasury.bytes@ != TIPY_TREASURY@ {
        Some(NftError::InvalidTreasury)
    } else if tick_lower >= tick_upper {
        Some(NftError::InvalidPoolId)
    } else {
        None
    }
}

/// The record of a position as it is minted: bound to its owner.
pub open spec fn fresh_record(
    ctx: MintPositionNft,
    pool_id: Pubkey,
    tick_lower: i32,
    tick_upper: i32,
) -> NftPositionRecord {
    NftPositionRecord {
        nft_mint: ctx.nft_mint,
        pool_id,
        tick_lower,
        tick_upper,
        owner: ctx.owner,
        transferable: false,
        bump: ctx.nft_position_record_bump,
    }
}

/// Mints the NFT of a position.
pub fn handler(
    ctx: &MintPositionNft,
    pool_id: Pubkey,
    tick_lower: i32,
    tick_upper: i32,
) -> (outcome:
    Result<PositionMint, NftError>)
    ensures
        outcome == (match mint_error(*ctx, tick_lower, tick_upper) {
            Some(error) => Err(error),
            None => Ok(
                PositionMint {
                    record: fresh_record(*ctx, pool_id, tick_lower, tick_upper),
                    fee_lamports: MINT_FEE_LAMPORTS,
                    tokens: 1,
                    event: PositionNftMinted {
                        nft_mint: ctx.nft_mint,
                        pool_id,
                        tick_lower,
                        tick_upper,
                        owner: ctx.owner,
                    },
                },
            ),
        }),
        outcome matches Ok(mint) ==> mint.fee_lamports == 1_000_000,
{
    let treasury = TIPY_TREASURY;
    if !same_bytes(&ctx.tipy_treasury.bytes, &treasury) {
        return Err(NftError::InvalidTreasury);
    }
    if tick_lower >= tick_upper {
        return Err(NftError::InvalidPoolId);
    }
    Ok(
        PositionMint {
            record: NftPositionRecord {
                nft_mint: ctx.nft_mint,
                pool_id,
                tick_lower,
                tick_upper,
                owner: ctx.owner,
                transferable: false,
                bump: ctx.nft_position_record_bump,
            },
            fee_lamports: MINT_FEE_LAMPORTS,
            tokens: 1,
            event: PositionNftMinted {
                nft_mint: ctx.nft_mint,
                pool_id,
                tick_lower,
                tick_upper,
                owner: ctx.owner,
            },
        },
    )
}

} // verus!
