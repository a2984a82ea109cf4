use nebula::keys::{Pubkey, TIPY_WALLET};
use nebula::nft::error::NftError;
use nebula::nft::instructions::burn_nft::BurnPositionNft;
use nebula::nft::instructions::mint_nft::{MintPositionNft, PositionMint, MINT_FEE_LAMPORTS};
use nebula::nft::instructions::set_transferable::SetTransferable;
use nebula::nft::instructions::transfer_position::TransferPosition;
use nebula::nft::state::NftPositionRecord;
use nebula::nft::{burn_position_nft, mint_position_nft, set_transferable, transfer_position};

fn key(n: u8) -> Pubkey {
    Pubkey { bytes: [n; 32] }
}

fn mint() -> PositionMint {
    let ctx = MintPositionNft {
        owner: key(1),
        nft_mint: key(2),
        tipy_treasury: Pubkey { bytes: TIPY_WALLET },
        nft_position_record_bump: 253,
    };
    mint_position_nft(&ctx, key(3), -100, 100).unwrap()
}

#[test]
fn minting_charges_the_fee_and_binds_the_position() {
    let minted = mint();
    assert_eq!(minted.fee_lamports, 1_000_000);
    assert_eq!(minted.fee_lamports, MINT_FEE_LAMPORTS);
    assert_eq!(minted.tokens, 1);
    let record = minted.record;
    assert!(record.owner == key(1) && record.nft_mint == key(2) && record.pool_id == key(3));
    assert_eq!((record.tick_lower, record.tick_upper, record.bump), (-100, 100, 253));
    assert!(!record.transferable);
    assert!(minted.event.owner == key(1));
    assert_eq!((minted.event.tick_lower, minted.event.tick_upper), (-100, 100));
    assert_eq!(NftPositionRecord::LEN, 106);
}

#[test]
fn minting_checks_treasury_and_range() {
    let mut ctx = MintPositionNft {
        owner: key(1),
        nft_mint: key(2),
        tipy_treasury: key(9),
        nft_position_record_bump: 253,
    };
    assert_eq!(mint_position_nft(&ctx, key(3), 5, 5).unwrap_err(), NftError::InvalidTreasury);
    ctx.tipy_treasury = Pubkey { bytes: TIPY_WALLET };
    assert_eq!(mint_position_nft(&ctx, key(3), 5, 5).unwrap_err(), NftError::InvalidPoolId);
    assert_eq!(mint_position_nft(&ctx, key(3), 6, 5).unwrap_err(), NftError::InvalidPoolId);
    assert!(mint_position_nft(&ctx, key(3), 4, 5).is_ok());
}

#[test]
fn only_the_owner_burns() {
    let mut ctx = BurnPositionNft {
        owner: key(1),
        nft_mint: key(2),
        nft_position_record: Some(mint().record),
    };
    ctx.owner = key(5);
    assert_eq!(burn_position_nft(&mut ctx).unwrap_err(), NftError::NotPositionOwner);
    assert!(ctx.nft_position_record.is_some());
    ctx.owner = key(1);
    let burned = burn_position_nft(&mut ctx).unwrap();
    assert_eq!(burned.tokens, 1);
    assert!(burned.rent_to == key(1));
    assert!(burned.event.pool_id == key(3) && burned.event.owner == key(1));
    assert!(burned.event.nft_mint == key(2));
}

#[test]
fn position_is_burned_once() {
    let mut ctx = BurnPositionNft {
        owner: key(1),
        nft_mint: key(2),
        nft_position_record: Some(mint().record),
    };
    assert!(burn_position_nft(&mut ctx).is_ok());
    assert!(ctx.nft_position_record.is_none());
    assert_eq!(burn_position_nft(&mut ctx).unwrap_err(), NftError::AccountNotInitialized);
}

#[test]
fn position_is_bound_until_the_admin_unlocks_it() {
    let mut transfer = TransferPosition {
        owner: key(1),
        nft_mint: key(2),
        new_owner: key(7),
        nft_position_record: mint().record,
    };
    assert_eq!(transfer_position(&mut transfer).unwrap_err(), NftError::NftNotTransferable);

    let mut unlock = SetTransferable { admin: key(1), nft_position_record: mint().record };
    assert_eq!(set_transferable(&mut unlock, true).unwrap_err(), NftError::Unauthorized);
    assert!(!unlock.nft_position_record.transferable);
    unlock.admin = Pubkey { bytes: TIPY_WALLET };
    let event = set_transferable(&mut unlock, true).unwrap();
    assert!(event.transferable && event.nft_mint == key(2));

    transfer.nft_position_record = unlock.nft_position_record;
    let moved = transfer_position(&mut transfer).unwrap();
    assert_eq!(moved.tokens, 1);
    assert!(moved.event.from == key(1) && moved.event.to == key(7));
    assert!(transfer.nft_position_record.owner == key(7));
    assert_eq!(transfer.nft_position_record.tick_lower, -100);

    assert_eq!(transfer_position(&mut transfer).unwrap_err(), NftError::NotPositionOwner);
    transfer.owner = key(7);
    transfer.new_owner = key(8);
    assert!(transfer_position(&mut transfer).is_ok());
}

#[test]
fn locking_takes_back_unlocking() {
    let mut ctx = SetTransferable {
        admin: Pubkey { bytes: TIPY_WALLET },
        nft_position_record: mint().record,
    };
    assert!(set_transferable(&mut ctx, true).is_ok());
    assert!(ctx.nft_position_record.transferable);
    assert!(set_transferable(&mut ctx, false).is_ok());
    assert!(!ctx.nft_position_record.transferable);
}

#[test]
fn default_record_is_bound_and_empty() {
    let record = NftPositionRecord::default();
    assert!(record.owner == key(0));
    assert!(!record.transferable);
    assert_eq!((record.tick_lower, record.tick_upper, record.bump), (0, 0, 0));
}
