use nebula::commitment::{digest_of_position, encode_position};
use nebula::drift::error::ErrorCode;
use nebula::drift::instructions::commitment::{
    check_liquidation, close_perp, handler_close_perp_with_reveal,
    handler_open_perp_with_commitment, handler_perp_shield_liquidation_check, ClosePerpWithReveal,
    LiquidationCheckResult, OpenPerpWithCommitment, PerpShieldLiquidationCheck,
};
use nebula::drift::state::perp_market::PerpMarket;
use nebula::drift::pnl::settle_position;
use nebula::drift::state::position_commitment::{PositionCommitment, POSITION_COMMITMENT_SEED};
use nebula::keys::Pubkey;

fn key(n: u8) -> Pubkey {
    Pubkey { bytes: [n; 32] }
}

fn market() -> PerpMarket {
    PerpMarket {
        reduce_only: false,
        number_of_users: 3,
        number_of_users_with_base: 2,
        last_oracle_price: 500,
        quote_max_insurance: 10,
    }
}

const SALT: [u8; 16] = [9; 16];

fn opened(is_long: bool) -> (PositionCommitment, PerpMarket) {
    let digest = digest_of_position(1000, 200, 600, 500, &SALT);
    let mut ctx = OpenPerpWithCommitment {
        owner: key(1),
        market_key: key(2),
        perp_market: market(),
        position_bump: 254,
    };
    let position =
        handler_open_perp_with_commitment(&mut ctx, 0, 75, is_long, digest, 33).unwrap();
    (position, ctx.perp_market)
}

#[test]
fn byte_form_of_a_position() {
    let bytes = encode_position(0x0102030405060708, 0x0a0b, 1, 1 << 120, &SALT);
    assert_eq!(bytes.len(), 58);
    assert_eq!(&bytes[..10], &[8, 7, 6, 5, 4, 3, 2, 1, 0x0b, 0x0a]);
    assert_eq!(bytes[10..26].to_vec(), 1u128.to_le_bytes().to_vec());
    assert_eq!(bytes[26..42].to_vec(), (1u128 << 120).to_le_bytes().to_vec());
    assert_eq!(&bytes[42..], &SALT);
}

#[test]
fn digest_is_sha256_of_the_byte_form() {
    let zero = digest_of_position(0, 0, 0, 0, &[0; 16]);
    let expected = anchor_lang::solana_program::hash::hash(&[0u8; 58]).to_bytes();
    assert_eq!(zero, expected);
    assert_ne!(zero, [0; 32]);
    let bytes = encode_position(1000, 200, 600, 500, &SALT);
    assert_eq!(
        digest_of_position(1000, 200, 600, 500, &SALT),
        anchor_lang::solana_program::hash::hash(&bytes).to_bytes()
    );
}

#[test]
fn opening_records_digest_and_counts() {
    let (position, market) = opened(true);
    assert!(position.owner == key(1));
    assert!(position.market == key(2));
    assert_eq!(position.collateral_amount, 75);
    assert!(position.is_long);
    assert_eq!((position.committed_at_slot, position.last_updated_slot, position.bump), (33, 33, 254));
    assert_eq!((market.number_of_users, market.number_of_users_with_base), (4, 3));
    assert_eq!(PositionCommitment::LEN, 137);
    assert_eq!(&POSITION_COMMITMENT_SEED, b"position_commitment");
}

#[test]
fn opening_is_refused_in_reduce_only_or_without_digest() {
    let mut ctx = OpenPerpWithCommitment {
        owner: key(1),
        market_key: key(2),
        perp_market: market(),
        position_bump: 254,
    };
    let outcome = handler_open_perp_with_commitment(&mut ctx, 0, 75, true, [0; 32], 33);
    assert_eq!(outcome.unwrap_err(), ErrorCode::InvalidCommitment);
    ctx.perp_market.reduce_only = true;
    let outcome = handler_open_perp_with_commitment(&mut ctx, 0, 75, true, [1; 32], 33);
    assert_eq!(outcome.unwrap_err(), ErrorCode::MarketPaused);
    assert_eq!(ctx.perp_market.number_of_users, 3);
}

#[test]
fn only_the_committed_details_verify() {
    let (position, _) = opened(true);
    assert!(position.verify_reveal(1000, 200, 600, 500, SALT));
    assert!(!position.verify_reveal(1001, 200, 600, 500, SALT));
    assert!(!position.verify_reveal(1000, 201, 600, 500, SALT));
    assert!(!position.verify_reveal(1000, 200, 601, 500, SALT));
    assert!(!position.verify_reveal(1000, 200, 600, 501, SALT));
    assert!(!position.verify_reveal(1000, 200, 600, 500, [8; 16]));
    assert!(position.matches_digest(&position.commitment));
    assert!(!position.matches_digest(&[1; 32]));
}

#[test]
fn owner_closes_with_the_details() {
    let (position, perp_market) = opened(true);
    let mut ctx = ClosePerpWithReveal {
        owner: key(1),
        market_key: key(2),
        perp_market,
        position_commitment: Some(position),
    };
    let refused = handler_close_perp_with_reveal(&mut ctx, 0, 75, 1, 200, 600, 500, SALT, 40);
    assert_eq!(refused.unwrap_err(), ErrorCode::InvalidCommitment);
    ctx.owner = key(99);
    let refused = handler_close_perp_with_reveal(&mut ctx, 0, 75, 1000, 200, 600, 500, SALT, 40);
    assert_eq!(refused.unwrap_err(), ErrorCode::NotSender);
    ctx.owner = key(1);
    assert!(ctx.position_commitment.is_some());
    assert_eq!(ctx.perp_market.number_of_users, 4);
    ctx.perp_market.last_oracle_price = 630;
    let end =
        handler_close_perp_with_reveal(&mut ctx, 0, 100, 1000, 200, 600, 500, SALT, 40).unwrap();
    assert_eq!((end.collateral_returned, end.event.collateral_returned), (125, 125));
    assert!(end.rent_to == key(1));
    assert!(end.event.is_long && end.event.owner == key(1) && end.event.market == key(2));
    assert_eq!(end.event.slot, 40);
    assert_eq!((ctx.perp_market.number_of_users, ctx.perp_market.number_of_users_with_base), (3, 2));
    ctx.position_commitment = Some(position);
    assert_eq!(close_perp(&mut ctx, true, 1000, 600, 41).unwrap().collateral_returned, 125);
    ctx.position_commitment = Some(position);
    assert_eq!(close_perp(&mut ctx, true, 0, 600, 41).unwrap().collateral_returned, 75);
}

#[test]
fn position_is_closed_once() {
    let (position, perp_market) = opened(false);
    let mut ctx = ClosePerpWithReveal {
        owner: key(1),
        market_key: key(2),
        perp_market,
        position_commitment: Some(position),
    };
    assert!(handler_close_perp_with_reveal(&mut ctx, 0, 0, 1000, 200, 600, 500, SALT, 40).is_ok());
    assert!(ctx.position_commitment.is_none());
    let again = handler_close_perp_with_reveal(&mut ctx, 0, 0, 1000, 200, 600, 500, SALT, 41);
    assert_eq!(again.unwrap_err(), ErrorCode::AccountNotInitialized);
    assert_eq!(ctx.perp_market.number_of_users, 3);
}

#[test]
fn liquidation_needs_details_and_price() {
    let (position, perp_market) = opened(true);
    let mut ctx = PerpShieldLiquidationCheck {
        liquidator: key(7),
        perp_market,
        position_commitment: position,
        position_owner: key(1),
    };
    let check = |ctx: &PerpShieldLiquidationCheck| {
        handler_perp_shield_liquidation_check(ctx, 1000, 200, 600, 500, SALT)
    };
    assert_eq!(
        check(&ctx),
        Ok(LiquidationCheckResult::Underwater { collateral_remaining: 7, estimated_loss: 68 })
    );
    ctx.perp_market.last_oracle_price = 501;
    assert_eq!(check(&ctx), Ok(LiquidationCheckResult::Healthy));
    assert_eq!(
        handler_perp_shield_liquidation_check(&ctx, 1000, 200, 600, 502, SALT),
        Err(ErrorCode::InvalidCommitment)
    );
    ctx.perp_market.reduce_only = true;
    assert_eq!(check(&ctx), Ok(LiquidationCheckResult::Healthy));
    ctx.perp_market.last_oracle_price = 0;
    assert_eq!(check(&ctx), Err(ErrorCode::MarketNotFound));
}

#[test]
fn shorts_are_liquidated_from_above() {
    let (position, perp_market) = opened(false);
    let mut ctx = PerpShieldLiquidationCheck {
        liquidator: key(7),
        perp_market,
        position_commitment: position,
        position_owner: key(1),
    };
    assert!(matches!(
        check_liquidation(&ctx, true, 500),
        Ok(LiquidationCheckResult::Underwater { .. })
    ));
    assert_eq!(check_liquidation(&ctx, true, 501), Ok(LiquidationCheckResult::Healthy));
    ctx.perp_market.last_oracle_price = 0;
    assert!(matches!(
        check_liquidation(&ctx, true, 0),
        Ok(LiquidationCheckResult::Underwater { .. })
    ));
    ctx.perp_market.last_oracle_price = -1;
    assert_eq!(check_liquidation(&ctx, true, 0), Ok(LiquidationCheckResult::Healthy));
    assert_eq!(check_liquidation(&ctx, true, u128::MAX), Ok(LiquidationCheckResult::Healthy));
}

#[test]
fn negative_price_is_below_every_limit() {
    let (position, perp_market) = opened(true);
    let mut ctx = PerpShieldLiquidationCheck {
        liquidator: key(7),
        perp_market,
        position_commitment: position,
        position_owner: key(1),
    };
    ctx.perp_market.last_oracle_price = -5;
    for limit in [0, 500, u128::MAX] {
        assert!(ctx.perp_market.is_at_or_below(limit) && !ctx.perp_market.is_at_or_above(limit));
        assert!(matches!(
            check_liquidation(&ctx, true, limit),
            Ok(LiquidationCheckResult::Underwater { .. })
        ));
    }
    ctx.perp_market.last_oracle_price = i64::MIN;
    assert!(ctx.perp_market.is_at_or_below(0) && !ctx.perp_market.is_at_or_above(0));
}

#[test]
fn position_with_nothing_left_is_insolvent() {
    let (position, perp_market) = opened(true);
    let mut ctx = PerpShieldLiquidationCheck {
        liquidator: key(7),
        perp_market,
        position_commitment: position,
        position_owner: key(1),
    };
    for collateral in [0, 1, 9] {
        ctx.position_commitment.collateral_amount = collateral;
        assert_eq!(
            check_liquidation(&ctx, true, 500),
            Ok(LiquidationCheckResult::Insolvent { insurance_shortfall: 0 })
        );
        assert_eq!(check_liquidation(&ctx, true, 499), Ok(LiquidationCheckResult::Healthy));
    }
    for collateral in [10, 19, 75, u64::MAX] {
        ctx.position_commitment.collateral_amount = collateral;
        match check_liquidation(&ctx, true, 500) {
            Ok(LiquidationCheckResult::Underwater { collateral_remaining, estimated_loss }) => {
                assert_eq!(collateral_remaining, collateral / 10);
                assert!(collateral_remaining > 0);
                assert_eq!(collateral_remaining + estimated_loss, collateral);
            }
            _ => panic!("expected a position underwater"),
        }
    }
}

#[test]
fn closing_pays_collateral_and_profit() {
    assert_eq!(settle_position(75, true, 1000, 600, 600), 75);
    assert_eq!(settle_position(75, true, 1000, 600, 630), 125);
    assert_eq!(settle_position(75, true, 1000, 600, 570), 25);
    assert_eq!(settle_position(75, true, 1000, 600, 500), 0);
    assert_eq!(settle_position(75, false, 1000, 600, 600), 75);
    assert_eq!(settle_position(75, false, 1000, 600, 630), 25);
    assert_eq!(settle_position(75, false, 1000, 600, 570), 125);
    assert_eq!(settle_position(75, false, 1000, 600, 700), 0);
    assert_eq!(settle_position(75, false, 1000, 600, -600), 2075);
    assert_eq!(settle_position(3000, true, 1000, 600, -600), 1000);
    assert_eq!(settle_position(3000, true, 1000, 600, -1), 1999);
}

#[test]
fn closing_at_the_limits_of_the_types() {
    for price in [i64::MIN, -1, 0, 1, i64::MAX] {
        for is_long in [true, false] {
            assert_eq!(settle_position(75, is_long, 0, 600, price), 75);
            assert_eq!(settle_position(75, is_long, 1000, 0, price), 75);
        }
    }
    assert_eq!(settle_position(u64::MAX, true, u64::MAX, 1, i64::MAX), u64::MAX);
    assert_eq!(settle_position(u64::MAX, true, u64::MAX, 1, i64::MIN), 0);
    assert_eq!(settle_position(u64::MAX, false, u64::MAX, 1, i64::MIN), u64::MAX);
    assert_eq!(settle_position(u64::MAX, false, u64::MAX, 1, i64::MAX), 0);
    assert_eq!(settle_position(75, true, 1000, u128::MAX, i64::MAX), 0);
    assert_eq!(settle_position(75, false, 1000, u128::MAX, i64::MAX), 1075);
}

#[test]
fn owner_of_an_empty_position_gets_the_collateral_back() {
    let digest = digest_of_position(0, 200, 600, 500, &SALT);
    let (mut position, perp_market) = opened(true);
    position.commitment = digest;
    let mut ctx = ClosePerpWithReveal {
        owner: key(1),
        market_key: key(2),
        perp_market,
        position_commitment: Some(position),
    };
    let event =
        handler_close_perp_with_reveal(&mut ctx, 0, 0, 0, 200, 600, 500, SALT, 40).unwrap();
    assert_eq!(event.collateral_returned, 75);
}

#[test]
fn default_position_is_all_zeros() {
    let position = PositionCommitment::default();
    assert_eq!(position.commitment, [0; 32]);
    assert_eq!(position.collateral_amount, 0);
    assert!(!position.is_long);
    assert!(position.owner == key(0));
}
