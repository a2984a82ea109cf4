//! What the instructions on position NFTs do, in terms of what their accounts hold.
use vstd::prelude::*;

#[allow(unused_imports)]
use crate::keys::TIPY_WALLET;
use crate::keys::Pubkey;
#[allow(unused_imports)]
use crate::nft::error::NftError;
use crate::nft::instructions::burn_nft::BurnPositionNft;
#[allow(unused_imports)]
use crate::nft::instructions::burn_nft::{after_burn, burn_outcome};
use crate::nft::instructions::mint_nft::MintPositionNft;
#[allow(unused_imports)]
use crate::nft::instructions::mint_nft::{fresh_record, mint_error};
use crate::nft::instructions::set_transferable::SetTransferable;
#[allow(unused_imports)]
use crate::nft::instructions::set_transferable::{flag_outcome, with_flag};
use crate::nft::instructions::transfer_position::TransferPosition;
#[allow(unused_imports)]
use crate::nft::instructions::transfer_position::{transfer_outcome, transferred};

verus! {

/// A position NFT is minted where its fee goes to the fixed treasury and its lower tick is below
/// its upper one. The first of these that does not hold is the reason why it is not. Its record
/// holds its mint, its pool, its ticks and its owner, and is bound to the owner.
pub proof fn mint_records_the_position(
    ctx: MintPositionNft,
    pool_id: Pubkey,
    tick_lower: i32,
    tick_upper: i32,
)
    ensures
        match mint_error(ctx, tick_lower, tick_upper) {
            Some(NftError::InvalidTreasury) => ctx.tipy_treasury.bytes@ != TIPY_WALLET@,
            Some(NftError::InvalidPoolId) => {
                &&& ctx.tipy_treasury.bytes@ == TIPY_WALLET@
                &&& tick_lower >= tick_upper
            },
            Some(_) => false,
            None => ctx.tipy_treasury.bytes@ == TIPY_WALLET@ && tick_lower < tick_upper,
        },
        ({
            let record = fresh_record(ctx, pool_id, tick_lower, tick_upper);
            &&& record.nft_mint == ctx.nft_mint
            &&& record.pool_id == pool_id
            &&& record.tick_lower == tick_lower
            &&& record.tick_upper == tick_upper
            &&& record.owner == ctx.owner
            &&& !record.transferable
            &&& record.bump == ctx.nft_position_record_bump
        }),
{
}

/// A burn takes the one token of the mint and closes the record, for its owner alone, who gets its
/// lamports. It is published with the mint, the pool of the record and the owner.
pub proof fn burn_takes_token_and_record(ctx: BurnPositionNft)
    ensures
        match (burn_outcome(ctx), ctx.nft_position_record) {
            (Ok(burn), Some(record)) => {
                &&& record.owner == ctx.owner
                &&& burn.tokens == 1
                &&& burn.rent_to == ctx.owner
                &&& burn.event.nft_mint == ctx.nft_mint
                &&& burn.event.pool_id == record.pool_id
                &&& burn.event.owner == ctx.owner
            },
            (Err(error), Some(record)) => {
                &&& record.owner != ctx.owner
                &&& error == NftError::NotPositionOwner
            },
            (Err(error), None) => error == NftError::AccountNotInitialized,
            (Ok(_), None) => false,
        },
        after_burn(ctx).nft_position_record is None,
        after_burn(ctx).owner == ctx.owner,
        after_burn(ctx).nft_mint == ctx.nft_mint,
{
}

/// The admin, which is the fixed wallet, and nobody else sets whether an NFT can be transferred. It
/// is published with its mint, what was set, and who set it. Nothing else in the record changes.
pub proof fn flag_is_what_the_admin_set(ctx: SetTransferable, transferable: bool)
    ensures
        match flag_outcome(ctx, transferable) {
            Ok(event) => {
                &&& ctx.admin.bytes@ == TIPY_WALLET@
                &&& event.nft_mint == ctx.nft_position_record.nft_mint
                &&& event.transferable == transferable
                &&& event.admin == ctx.admin
            },
            Err(error) => {
                &&& ctx.admin.bytes@ != TIPY_WALLET@
                &&& error == NftError::Unauthorized
            },
        },
        ({
            let record = ctx.nft_position_record;
            let after = with_flag(record, transferable);
            &&& after.transferable == transferable
            &&& after.owner == record.owner
            &&& after.nft_mint == record.nft_mint
            &&& after.pool_id == record.pool_id
            &&& after.tick_lower == record.tick_lower
            &&& after.tick_upper == record.tick_upper
            &&& after.bump == record.bump
        }),
{
}

/// A transfer moves the one token of an unlocked NFT from its owner to the new one, who owns the
/// record then. It is published with the mint, the pool of the record and both owners. Nothing else
/// in the record changes, so that the NFT stays unlocked.
pub proof fn transfer_moves_token_and_record(ctx: TransferPosition)
    ensures
        ({
            let record = ctx.nft_position_record;
            match transfer_outcome(ctx) {
                Ok(moved) => {
                    &&& record.transferable
                    &&& record.owner == ctx.owner
                    &&& moved.tokens == 1
                    &&& moved.event.nft_mint == ctx.nft_mint
                    &&& moved.event.pool_id == record.pool_id
                    &&& moved.event.from == ctx.owner
                    &&& moved.event.to == ctx.new_owner
                },
                Err(NftError::NftNotTransferable) => !record.transferable,
                Err(NftError::NotPositionOwner) => record.transferable && record.owner != ctx.owner,
                Err(_) => false,
            }
        }),
        ({
            let record = ctx.nft_position_record;
            let after = transferred(record, ctx.new_owner);
            &&& after.owner == ctx.new_owner
            &&& after.transferable == record.transferable
            &&& after.nft_mint == record.nft_mint
            &&& after.pool_id == record.pool_id
            &&& after.tick_lower == record.tick_lower
            &&& after.tick_upper == record.tick_upper
            &&& after.bump == record.bump
        }),
{
}

} // verus!
