//! Position NFTs: each liquidity position is a token in the wallet of its owner, bound to the owner
//! until the admin unlocks its transfer.
use vstd::prelude::*;

use crate::keys::Pubkey;
use crate::nft::error::NftError;
use crate::nft::instructions::burn_nft::{BurnPositionNft, PositionBurn};
#[allow(unused_imports)]
use crate::nft::instructions::burn_nft::{after_burn, burn_outcome};
use crate::nft::instructions::mint_nft::{
    MintPositionNft, PositionMint, PositionNftMinted, MINT_FEE_LAMPORTS,
};
#[allow(unused_imports)]
use crate::nft::instructions::mint_nft::{fresh_record, mint_error};
use crate::nft::instructions::set_transferable::{SetTransferable, TransferabilityChanged};
#[allow(unused_imports)]
use crate::nft::instructions::set_transferable::{flag_outcome, with_flag, NEBULA_ADMIN};
use crate::nft::instructions::transfer_position::{PositionMove, TransferPosition};
#[allow(unused_imports)]
use crate::nft::instructions::transfer_position::{transfer_outcome, transferred};
use crate::nft::state::NftPositionRecord;

pub mod error;
pub mod instructions;
pub mod laws;
pub mod state;

verus! {

/// Mints the NFT of a position, for a fee to the treasury. It starts bound to its owner.
pub fn mint_position_nft(
    ctx: &MintPositionNft,
    pool_id: Pubkey,
    tick_lower: i32,
    tick_upper: i32,
) -> (outcome: Result<PositionMint, NftError>)
    ensures
        outcome == (match mint_error(*ctx, tick_lower, tick_upper) {
            Some(error) => Err(error),
            None => Ok(
                PositionMint {
                    record: fresh_record(*ctx, pool_id, tick_lower, tick_upper),
                    fee_lamports: MINT_FEE_LAMPORTS,
                    tokens: 1,
                    event: PositionNftMinted {
                        nft_mint: ctx.nft_mint,
                        pool_id,
                        tick_lower,
                        tick_upper,
                        owner: ctx.owner,
                    },
                },
            ),
        }),
        outcome matches Ok(mint) ==> mint.fee_lamports == 1_000_000,
{
    instructions::mint_nft::handler(ctx, pool_id, tick_lower, tick_upper)
}

/// Burns the NFT of a closed position, and closes its record in favour of the owner.
pub fn burn_position_nft(ctx: &mut BurnPositionNft) -> (outcome: Result<PositionBurn, NftError>)
    ensures
        outcome == burn_outcome(*old(ctx)),
        *final(ctx) == (if outcome is Ok {
            after_burn(*old(ctx))
        } else {
            *old(ctx)
        }),
{
    instructions::burn_nft::handler(ctx)
}

/// Unlocks or locks the transfer of a position NFT.
pub fn set_transferable(ctx: &mut SetTransferable, transferable: bool) -> (outcome: Result<
    TransferabilityChanged,
    NftError,
>)
    ensures
        outcome == flag_outcome(*old(ctx), transferable),
        *final(ctx) == (if outcome is Ok {
            SetTransferable {
                nft_position_record: with_flag(old(ctx).nft_position_record, transferable),
                ..*old(ctx)
            }
        } else {
            *old(ctx)
        }),
{
    instructions::set_transferable::handler(ctx, transferable)
}

/// Transfers a position to a new owner.
pub fn transfer_position(ctx: &mut TransferPosition) -> (outcome: Result<PositionMove, NftError>)
    ensures
        outcome == transfer_outcome(*old(ctx)),
        *final(ctx) == (if outcome is Ok {
            TransferPosition {
                nft_position_record: transferred(
                    old(ctx).nft_position_record,
                    old(ctx).new_owner,
                ),
                ..*old(ctx)
            }
        } else {
            *old(ctx)
        }),
{
    instructions::transfer_position::handler(ctx)
}

// Laws.
/// A position starts bound to its owner: no transfer of it goes through, whoever signs.
pub proof fn fresh_position_is_bound(
    mint: MintPositionNft,
    pool_id: Pubkey,
    tick_lower: i32,
    tick_upper: i32,
    transfer: TransferPosition,
)
    requires
        transfer.nft_position_record == fresh_record(mint, pool_id, tick_lower, tick_upper),
    ensures
        transfer_outcome(transfer) == Err::<PositionMove, NftError>(NftError::NftNotTransferable),
{
}

/// A position goes to a new owner exactly where the admin unlocked it and its owner signs.
pub proof fn transfer_needs_unlock_and_owner(ctx: TransferPosition)
    ensures
        transfer_outcome(ctx) is Ok <==> ctx.nft_position_record.transferable
            && ctx.nft_position_record.owner == ctx.owner,
{
}

/// Nobody but the admin unlocks or locks an NFT.
pub proof fn only_admin_unlocks(ctx: SetTransferable, transferable: bool)
    ensures
        flag_outcome(ctx, transferable) is Ok <==> ctx.admin.bytes@ == NEBULA_ADMIN@,
{
}

/// A transfer hands over the rights in full: the new owner can transfer the position on, and the
/// old one no longer can.
pub proof fn transfer_hands_over_rights(
    ctx: TransferPosition,
    by_old: TransferPosition,
    by_new: TransferPosition,
)
    requires
        transfer_outcome(ctx) is Ok,
        ctx.new_owner != ctx.owner,
        by_old.owner == ctx.owner,
        by_new.owner == ctx.new_owner,
        by_old.nft_position_record == transferred(ctx.nft_position_record, ctx.new_owner),
        by_new.nft_position_record == transferred(ctx.nft_position_record, ctx.new_owner),
    ensures
        transfer_outcome(by_old) == Err::<PositionMove, NftError>(NftError::NotPositionOwner),
        transfer_outcome(by_new) is Ok,
{
}

/// Unlocking and transferring leave mint, pool and price range of a position, and keep its record
/// valid.
pub proof fn position_keeps_its_identity(
    record: NftPositionRecord,
    new_owner: Pubkey,
    transferable: bool,
)
    requires
        record.valid(),
    ensures
        forall|after: NftPositionRecord|
            #![trigger after.valid()]
            after == transferred(record, new_owner) || after == with_flag(record, transferable)
                ==> {
                &&& after.valid()
                &&& after.nft_mint == record.nft_mint
                &&& after.pool_id == record.pool_id
                &&& after.tick_lower == record.tick_lower
                &&& after.tick_upper == record.tick_upper
                &&& after.bump == record.bump
            },
{
}

/// The owner of a position, and nobody else, burns its NFT, and gets the lamports of the record.
pub proof fn only_owner_burns(ctx: BurnPositionNft, record: NftPositionRecord)
    requires
        ctx.nft_position_record == Some(record),
    ensures
        burn_outcome(ctx) is Ok <==> ctx.owner == record.owner,
        burn_outcome(ctx) matches Ok(burn) ==> burn.rent_to == record.owner,
{
}

/// A position is burned once: its record is gone.
pub proof fn burned_position_is_gone(ctx: BurnPositionNft, again: BurnPositionNft)
    requires
        burn_outcome(ctx) is Ok,
        again.nft_position_record == after_burn(ctx).nft_position_record,
    ensures
        burn_outcome(again) == Err::<PositionBurn, NftError>(NftError::AccountNotInitialized),
{
}

/// A position that is minted has a price range.
pub proof fn minted_position_is_valid(
    ctx: MintPositionNft,
    pool_id: Pubkey,
    tick_lower: i32,
    tick_upper: i32,
)
    requires
        mint_error(ctx, tick_lower, tick_upper) is None,
    ensures
        fresh_record(ctx, pool_id, tick_lower, tick_upper).valid(),
{
}

/// Locking an NFT again takes back its unlocking.
pub proof fn locking_undoes_unlocking(record: NftPositionRecord)
    requires
        !record.transferable,
    ensures
        with_flag(with_flag(record, true), false) == record,
{
}

} // verus!
