use nebula::amm::error::ErrorCode;
use nebula::amm::instructions::perp_market::{
    handler_close_position, handler_init_market, handler_liquidation_check, handler_open_position,
    handler_update_funding_rate, handler_update_mark_price, open_position_at, InitPerpMarket,
    LiquidationCheck, PerpClosePosition, PerpOpenPosition, UpdateFundingRate, UpdateMarkPrice,
};
use nebula::amm::instructions::perp_shield::{
    breaker_address, initialize_shield, InitializeShield,
};
use nebula::amm::states::perp_market::{LiquidationCheckResult, PerpMarket, PositionCommitment};
use nebula::amm::states::perp_shield::PerpShield;
use nebula::commitment::digest_of_position;
use nebula::keys::Pubkey;

fn key(n: u8) -> Pubkey {
    Pubkey { bytes: [n; 32] }
}

fn init(leverage: u16, liquidation_fee: u16, min_collateral: u64) -> Result<PerpMarket, ErrorCode> {
    let ctx = InitPerpMarket {
        admin: key(1),
        base_mint: key(2),
        quote_mint: key(3),
        collateral_vault: key(4),
        insurance_fund_vault: key(5),
        perp_market_bump: 77,
    };
    handler_init_market(&ctx, 42, leverage, liquidation_fee, 10, 5, min_collateral, key(6))
}

fn market() -> PerpMarket {
    init(20, 100, 50).unwrap()
}

fn breaker(market: Pubkey) -> PerpShield {
    let ctx = InitializeShield {
        authority: key(1),
        perp_market: market,
        perp_shield: key(7),
        perp_shield_bump: 1,
    };
    initialize_shield(&ctx, 10, 0, 0, 0, 5).0
}

fn open(market: PerpMarket) -> PerpOpenPosition {
    PerpOpenPosition {
        owner: key(9),
        market_key: key(8),
        perp_market: market,
        program_id: key(90),
        shield_key: breaker_address(&key(8), &key(90)).unwrap().0,
        perp_shield: Some(breaker(key(8))),
        position_bump: 3,
    }
}

#[test]
fn market_is_set_up_within_limits() {
    let m = market();
    assert_eq!((m.market_id, m.max_leverage, m.min_collateral, m.bump), (42, 20, 50, 77));
    assert!(m.is_active() && !m.is_emergency());
    assert!(m.price_authority == key(6));
    assert_eq!(init(0, 100, 50).unwrap_err(), ErrorCode::MaxLeverageExceeded);
    assert_eq!(init(101, 100, 50).unwrap_err(), ErrorCode::MaxLeverageExceeded);
    assert_eq!(init(100, 501, 50).unwrap_err(), ErrorCode::InvalidTreasury);
    assert_eq!(init(100, 500, 0).unwrap_err(), ErrorCode::InsufficientCollateral);
    assert!(init(100, 500, 1).is_ok());
}

#[test]
fn opening_and_closing_balance_out() {
    let mut ctx = open(market());
    let (position, event) = handler_open_position(&mut ctx, 75, true, [1; 32], 30).unwrap();
    assert_eq!(event.collateral_amount, 75);
    assert_eq!(event.slot, 30);
    assert_eq!(position.commitment, [1; 32]);
    assert_eq!((position.committed_at_slot, position.bump), (30, 3));
    let m = ctx.perp_market;
    assert_eq!((m.long_open_interest, m.long_oi_notional), (1, 75));
    assert_eq!((m.short_open_interest, m.short_oi_notional), (0, 0));
    assert_eq!((m.total_trades, m.total_volume), (1, 75));
    handler_open_position(&mut ctx, 60, false, [2; 32], 31).unwrap();
    assert_eq!((ctx.perp_market.short_open_interest, ctx.perp_market.short_oi_notional), (1, 60));

    let mut close = PerpClosePosition {
        owner: key(9),
        market_key: key(8),
        perp_market: ctx.perp_market,
        position,
    };
    let event = handler_close_position(&mut close, 100, 40).unwrap();
    assert_eq!(event.collateral_returned, 75);
    let m = close.perp_market;
    assert_eq!((m.long_open_interest, m.long_oi_notional), (0, 0));
    assert_eq!((m.short_open_interest, m.total_trades, m.total_volume), (1, 2, 135));
    assert_eq!(handler_close_position(&mut close, 10, 41).unwrap().collateral_returned, 10);
    close.owner = key(1);
    assert_eq!(handler_close_position(&mut close, 10, 41).unwrap_err(), ErrorCode::NotSender);
}

#[test]
fn opening_is_refused_with_its_reason() {
    let mut ctx = open(market());
    assert_eq!(
        handler_open_position(&mut ctx, 49, true, [1; 32], 30).unwrap_err(),
        ErrorCode::InsufficientCollateral
    );
    assert_eq!(
        handler_open_position(&mut ctx, 50, true, [0; 32], 30).unwrap_err(),
        ErrorCode::InvalidCommitment
    );
    assert!(handler_open_position(&mut ctx, 50, true, [1; 32], 30).is_ok());
    ctx.perp_shield = Some(breaker(key(99)));
    assert_eq!(
        handler_open_position(&mut ctx, 50, true, [1; 32], 30).unwrap_err(),
        ErrorCode::ConstraintAddress
    );
    let own = ctx.shield_key;
    ctx.shield_key = breaker_address(&key(99), &key(90)).unwrap().0;
    for presented in [Some(breaker(key(8))), None] {
        ctx.perp_shield = presented;
        assert_eq!(
            handler_open_position(&mut ctx, 50, true, [1; 32], 30).unwrap_err(),
            ErrorCode::ConstraintAddress
        );
    }
    ctx.shield_key = own;
    let mut armed = breaker(key(8));
    armed.circuit_breaker_active = 1;
    ctx.perp_shield = Some(armed);
    assert_eq!(
        handler_open_position(&mut ctx, 50, true, [1; 32], 30).unwrap_err(),
        ErrorCode::CircuitBreakerActive
    );
    ctx.perp_market.status = 1;
    assert_eq!(
        handler_open_position(&mut ctx, 49, true, [1; 32], 30).unwrap_err(),
        ErrorCode::MarketPaused
    );
    assert_eq!(ctx.perp_market.long_open_interest, 1);
}

#[test]
fn market_without_a_breaker_opens() {
    let mut ctx = open(market());
    ctx.perp_shield = None;
    assert!(handler_open_position(&mut ctx, 50, true, [1; 32], 30).is_ok());
    assert_eq!(
        handler_open_position(&mut ctx, 49, true, [1; 32], 30).unwrap_err(),
        ErrorCode::InsufficientCollateral
    );
    let expected = Some(ctx.shield_key);
    assert!(open_position_at(&mut ctx, &expected, 50, false, [1; 32], 31).is_ok());
    assert_eq!(
        open_position_at(&mut ctx, &None, 50, false, [1; 32], 31).unwrap_err(),
        ErrorCode::ConstraintAddress
    );
    assert_eq!((ctx.perp_market.long_open_interest, ctx.perp_market.short_open_interest), (1, 1));
}

#[test]
fn price_authority_sets_the_mark_price() {
    let mut ctx = UpdateMarkPrice { price_authority: key(6), market_key: key(8), perp_market: market() };
    let event = handler_update_mark_price(&mut ctx, 500, 490, 12).unwrap();
    assert_eq!((event.mark_price_x64, event.index_price_x64, event.slot), (500, 490, 12));
    assert_eq!((ctx.perp_market.mark_price_x64, ctx.perp_market.index_price_x64), (500, 490));
    assert_eq!(
        handler_update_mark_price(&mut ctx, 0, 490, 12).unwrap_err(),
        ErrorCode::ZeroSqrtPrice
    );
    ctx.price_authority = key(1);
    assert_eq!(
        handler_update_mark_price(&mut ctx, 0, 490, 12).unwrap_err(),
        ErrorCode::NotSender
    );
    assert_eq!(ctx.perp_market.mark_price_x64, 500);
}

#[test]
fn funding_is_updated_once_per_epoch() {
    let mut ctx = UpdateFundingRate { caller: key(1), market_key: key(8), perp_market: market() };
    ctx.perp_market.long_open_interest = 4;
    assert_eq!(
        handler_update_funding_rate(&mut ctx, 71_999).unwrap_err(),
        ErrorCode::FundingRateStale
    );
    let event = handler_update_funding_rate(&mut ctx, 72_000).unwrap();
    assert_eq!((event.funding_rate_x64, event.long_oi, event.short_oi), (1, 4, 0));
    assert_eq!(ctx.perp_market.cumulative_funding_x64, 1);
    assert_eq!(ctx.perp_market.last_funding_slot, 72_000);
    assert!(handler_update_funding_rate(&mut ctx, 143_999).is_err());
    ctx.perp_market.short_open_interest = 5;
    ctx.perp_market.long_open_interest = 0;
    handler_update_funding_rate(&mut ctx, 144_000).unwrap();
    assert_eq!(ctx.perp_market.funding_rate_x64, -1);
    assert_eq!(ctx.perp_market.cumulative_funding_x64, 0);
}

#[test]
fn imbalance_of_open_interest() {
    let mut m = market();
    assert_eq!(m.oi_imbalance_bps(), 0);
    assert_eq!(m.calculate_funding_rate(), 0);
    m.long_open_interest = 3;
    m.short_open_interest = 1;
    assert_eq!((m.oi_skew(), m.oi_imbalance_bps(), m.calculate_funding_rate()), (2, 5000, 0));
    m.long_open_interest = 0;
    assert_eq!((m.oi_skew(), m.oi_imbalance_bps(), m.calculate_funding_rate()), (-1, 10_000, -1));
}

fn check(is_long: bool, limit: u128) -> LiquidationCheck {
    let mut m = market();
    let digest = digest_of_position(1, 2, 3, limit, &[4; 16]);
    let (position, _) = handler_open_position(&mut open(m), 75, is_long, digest, 30).unwrap();
    m.mark_price_x64 = 500;
    LiquidationCheck { liquidator: key(1), perp_market: m, position, position_owner: key(9) }
}

fn revealed(ctx: &LiquidationCheck, limit: u128) -> Result<LiquidationCheckResult, ErrorCode> {
    handler_liquidation_check(ctx, 1, 2, 3, limit, [4; 16])
}

#[test]
fn liquidation_check_compares_mark_and_limit() {
    assert_eq!(
        revealed(&check(true, 500), 500),
        Ok(LiquidationCheckResult::Underwater { collateral_remaining: 7, estimated_loss: 68 })
    );
    assert_eq!(revealed(&check(true, 499), 499), Ok(LiquidationCheckResult::Healthy));
    assert_eq!(revealed(&check(false, 501), 501), Ok(LiquidationCheckResult::Healthy));
    assert!(matches!(
        revealed(&check(false, 499), 499),
        Ok(LiquidationCheckResult::Underwater { .. })
    ));
}

#[test]
fn liquidation_needs_the_committed_details() {
    let mut ctx = check(true, 500);
    assert!(revealed(&ctx, 500).is_ok());
    let refused = Err(ErrorCode::InvalidCommitment);
    assert_eq!(revealed(&ctx, 501), refused);
    assert_eq!(handler_liquidation_check(&ctx, 2, 2, 3, 500, [4; 16]), refused);
    assert_eq!(handler_liquidation_check(&ctx, 1, 3, 3, 500, [4; 16]), refused);
    assert_eq!(handler_liquidation_check(&ctx, 1, 2, 4, 500, [4; 16]), refused);
    assert_eq!(handler_liquidation_check(&ctx, 1, 2, 3, 500, [5; 16]), refused);
    ctx.perp_market.mark_price_x64 = 0;
    assert_eq!(revealed(&ctx, 501), refused);
    assert_eq!(revealed(&ctx, 500), Err(ErrorCode::MarketNotFound));
    ctx.position.commitment = [0; 32];
    assert_eq!(revealed(&ctx, 500), Err(ErrorCode::MarketNotFound));
    ctx.perp_market.status = 2;
    assert_eq!(revealed(&ctx, 500), refused);
}

#[test]
fn default_market_and_position_are_all_zeros() {
    let m = PerpMarket::default();
    assert_eq!((m.market_id, m.max_leverage, m.min_collateral, m.status), (0, 0, 0, 0));
    assert_eq!((m.mark_price_x64, m.funding_rate_x64, m.long_open_interest), (0, 0, 0));
    assert!(m.price_authority == key(0));
    let p = PositionCommitment::default();
    assert!(p.owner == key(0) && p.market == key(0));
    assert_eq!((p.commitment, p.collateral_amount, p.is_long), ([0; 32], 0, false));
}
