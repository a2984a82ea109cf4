//! Perpetual markets.
//!
//! What a position is worth is not stored in the clear: its account holds a digest of size,
//! leverage, entry price and liquidation price. Only the collateral and the direction are public,
//! which solvency checks and open-interest accounting need.
use vstd::prelude::*;

#[allow(unused_imports)]
use crate::arith::{distance, div_toward_zero};
#[allow(unused_imports)]
use crate::commitment::is_zero_digest;
use crate::keys::Pubkey;

verus! {

/// First seed of the address of a market: `perp_market`.
pub const PERP_MARKET_SEED: [u8; 11] = [112, 101, 114, 112, 95, 109, 97, 114, 107, 101, 116];

/// First seed of the address of a position: `position`.
pub const POSITION_COMMITMENT_SEED: [u8; 8] = [112, 111, 115, 105, 116, 105, 111, 110];

/// Base funding rate per epoch, in basis points.
pub const BASE_FUNDING_RATE_BPS: u64 = 1;

/// Slots between funding updates.
pub const FUNDING_EPOCH_SLOTS: u64 = 72_000;

/// A perpetual trading pair.
#[derive(Clone, Copy, Debug)]
pub struct PerpMarket {
    pub market_id: u64,
    /// Mint of the base asset
    pub base_mint: Pubkey,
    /// Mint of the quote asset
    pub quote_mint: Pubkey,
    /// Vault that holds the deposits of traders
    pub collateral_vault: Pubkey,
    /// Vault of the insurance fund
    pub insurance_fund_vault: Pubkey,
    /// Authority allowed to update the mark price
    pub price_authority: Pubkey,
    /// Mark price in 64.64 fixed point
    pub mark_price_x64: u128,
    /// Index price in 64.64 fixed point
    pub index_price_x64: u128,
    /// Funding rate; positive where longs pay shorts
    pub funding_rate_x64: i128,
    /// Slot of the last funding update
    pub last_funding_slot: u64,
    /// Sum of all funding rates
    pub cumulative_funding_x64: i128,
    /// Open long positions
    pub long_open_interest: u64,
    /// Open short positions
    pub short_open_interest: u64,
    /// Collateral behind the open long positions
    pub long_oi_notional: u128,
    /// Collateral behind the open short positions
    pub short_oi_notional: u128,
    /// Balance of the insurance fund
    pub insurance_fund_balance: u64,
    /// Largest leverage allowed
    pub max_leverage: u16,
    /// Fee on liquidations, in basis points
    pub liquidation_fee_bps: u16,
    /// Fee on taking, in basis points
    pub taker_fee_bps: u16,
    /// Rebate on making, in basis points
    pub maker_fee_bps: u16,
    /// Smallest collateral of a position
    pub min_collateral: u64,
    /// Positions opened so far
    pub total_trades: u64,
    /// Collateral deposited so far
    pub total_volume: u128,
    /// 0 active, 1 paused, 2 emergency
    pub status: u8,
    /// Bump seed of the account address
    pub bump: u8,
    /// Reserved
    pub padding: [u8; 6],
}

impl PerpMarket {
    /// Space of the account in bytes.
    pub const LEN: usize = 8 + 8 + 160 + 32 + 48 + 96 + 8 + 8 + 8 + 24 + 2 + 8;

    /// Open positions on both sides.
    pub open spec fn open_interest(self) -> int {
        self.long_open_interest + self.short_open_interest
    }

    /// Longs minus shorts.
    pub open spec fn skew(self) -> int {
        self.long_open_interest - self.short_open_interest
    }

    /// Imbalance of the two sides in basis points of all open positions.
    pub open spec fn imbalance(self) -> int {
        if self.open_interest() == 0 {
            0
        } else {
            distance(self.long_open_interest as int, self.short_open_interest as int) * 10_000
                / self.open_interest()
        }
    }

    /// Funding rate that the imbalance calls for.
    pub open spec fn due_funding_rate(self) -> int {
        if self.open_interest() == 0 {
            0
        } else {
            div_toward_zero(self.skew() * BASE_FUNDING_RATE_BPS, self.open_interest())
        }
    }

    pub fn is_active(&self) -> (active: bool)
        ensures
            active == (self.status == 0),
    {
        self.status == 0
    }

    pub fn is_emergency(&self) -> (emergency: bool)
        ensures
            emergency == (self.status == 2),
    {
        self.status == 2
    }

    /// Longs minus shorts: positive where there are more longs.
    pub fn oi_skew(&self) -> (skew: i128)
        ensures
            skew == self.skew(),
    {
        self.long_open_interest as i128 - self.short_open_interest as i128
    }

    /// Imbalance of the two sides, from 0 for balance to 10 000 for one side alone.
    pub fn oi_imbalance_bps(&self) -> (bps: u16)
        requires
            self.open_interest() <= u64::MAX,
        ensures
            bps == self.imbalance(),
            bps <= 10_000,
    {
        let total: u64 = self.long_open_interest + self.short_open_interest;
        if total == 0 {
            return 0;
        }
        let skew: u64 = if self.long_open_interest > self.short_open_interest {
            self.long_open_interest - self.short_open_interest
        } else {
            self.short_open_interest - self.long_open_interest
        };
        let bps: u128 = (skew as u128) * 10_000 / (total as u128);
        assert(bps <= 10_000) by (nonlinear_arith)
            requires
                bps == skew as int * 10_000 / total as int,
                0 <= skew <= total,
                total > 0,
        ;
        bps as u16
    }

    /// Funding rate that the imbalance calls for, rounded toward zero.
    pub fn calculate_funding_rate(&self) -> (rate: i128)
        requires
            self.open_interest() <= u64::MAX,
        ensures
            rate == self.due_funding_rate(),
    {
        let total: i128 = (self.long_open_interest + self.short_open_interest) as i128;
        if total == 0 {
            return 0;
        }
        let skew: i128 = self.long_open_interest as i128 - self.short_open_interest as i128;
        let base: i128 = BASE_FUNDING_RATE_BPS as i128;
        assert(skew * base == skew) by (nonlinear_arith)
            requires
                base == 1,
        ;
        skew * base / total
    }

    /// The imbalance is 0 where the sides are equal, 10 000 exactly where one side is alone, and
    /// the same for a market with its sides exchanged.
    pub proof fn imbalance_spans_balance_to_one_side(self)
        ensures
            0 <= self.imbalance() <= 10_000,
            self.skew() == 0 ==> self.imbalance() == 0,
            self.imbalance() == 10_000 <==> self.open_interest() > 0 && (self.long_open_interest
                == 0 || self.short_open_interest == 0),
            self.imbalance() == (PerpMarket {
                long_open_interest: self.short_open_interest,
                short_open_interest: self.long_open_interest,
                ..self
            }).imbalance(),
    {
        let total = self.open_interest();
        let gap = distance(self.long_open_interest as int, self.short_open_interest as int);
        if total > 0 {
            assert(0 <= gap * 10_000 / total <= 10_000) by (nonlinear_arith)
                requires
                    0 <= gap <= total,
                    total > 0,
            ;
            if gap == total {
                assert(gap * 10_000 / total == 10_000) by (nonlinear_arith)
                    requires
                        gap == total,
                        total > 0,
                ;
            } else {
                assert(gap * 10_000 / total < 10_000) by (nonlinear_arith)
                    requires
                        0 <= gap < total,
                ;
            }
        }
    }

    /// Longs pay where they are alone, shorts pay where they are alone, and nobody pays otherwise.
    pub proof fn funding_follows_the_crowded_side(self)
        ensures
            self.due_funding_rate() == (if self.short_open_interest == 0
                && self.long_open_interest > 0 {
                1int
            } else if self.long_open_interest == 0 && self.short_open_interest > 0 {
                -1int
            } else {
                0int
            }),
    {
        let total = self.open_interest();
        let skew = self.skew();
        if total > 0 {
            if skew >= 0 {
                assert(skew / total == (if skew == total {
                    1int
                } else {
                    0int
                })) by (nonlinear_arith)
                    requires
                        0 <= skew <= total,
                        total > 0,
                ;
            } else {
                let lack = -skew;
                assert(lack / total == (if lack == total {
                    1int
                } else {
                    0int
                })) by (nonlinear_arith)
                    requires
                        0 <= lack <= total,
                        total > 0,
                ;
            }
        }
    }
}

impl Default for PerpMarket {
    fn default() -> (market: PerpMarket)
        ensures
            market.base_mint.is_zero(),
            market.quote_mint.is_zero(),
            market.collateral_vault.is_zero(),
            market.insurance_fund_vault.is_zero(),
            market.price_authority.is_zero(),
            market == (PerpMarket {
                market_id: 0,
                base_mint: market.base_mint,
                quote_mint: market.quote_mint,
                collateral_vault: market.collateral_vault,
                insurance_fund_vault: market.insurance_fund_vault,
                price_authority: market.price_authority,
                mark_price_x64: 0,
                index_price_x64: 0,
                funding_rate_x64: 0,
                last_funding_slot: 0,
                cumulative_funding_x64: 0,
                long_open_interest: 0,
                short_open_interest: 0,
                long_oi_notional: 0,
                short_oi_notional: 0,
                insurance_fund_balance: 0,
                max_leverage: 0,
                liquidation_fee_bps: 0,
                taker_fee_bps: 0,
                maker_fee_bps: 0,
                min_collateral: 0,
                total_trades: 0,
                total_volume: 0,
                status: 0,
                bump: 0,
                padding: [0, 0, 0, 0, 0, 0],
            }),
    {
        PerpMarket {
            market_id: 0,
            base_mint: Pubkey::default(),
            quote_mint: Pubkey::default(),
            collateral_vault: Pubkey::default(),
            insurance_fund_vault: Pubkey::default(),
            price_authority: Pubkey::default(),
            mark_price_x64: 0,
            index_price_x64: 0,
            funding_rate_x64: 0,
            last_funding_slot: 0,
            cumulative_funding_x64: 0,
            long_open_interest: 0,
            short_open_interest: 0,
            long_oi_notional: 0,
            short_oi_notional: 0,
            insurance_fund_balance: 0,
            max_leverage: 0,
            liquidation_fee_bps: 0,
            taker_fee_bps: 0,
            maker_fee_bps: 0,
            min_collateral: 0,
            total_trades: 0,
            total_volume: 0,
            status: 0,
            bump: 0,
            padding: [0, 0, 0, 0, 0, 0],
        }
    }
}

/// Position of a trader in a market, as the digest of its private details.
#[derive(Clone, Copy, Debug)]
pub struct PositionCommitment {
    pub owner: Pubkey,
    pub market: Pubkey,
    /// Digest of size, leverage, entry price, liquidation price and salt
    pub commitment: [u8; 32],
    /// Collateral deposited
    pub collateral_amount: u64,
    pub is_long: bool,
    /// Slot in which the position was opened
    pub committed_at_slot: u64,
    /// Slot of the last update
    pub last_updated_slot: u64,
    /// Sum of funding rates at the last settlement
    pub last_cumulative_funding_x64: i128,
    /// Bump seed of the account address
    pub bump: u8,
    /// Reserved
    pub padding: [u8; 6],
}

impl PositionCommitment {
    /// Space of the account in bytes.
    pub const LEN: usize = 8 + 32 + 32 + 32 + 8 + 1 + 8 + 8 + 16 + 1 + 6;
}

impl Default for PositionCommitment {
    fn default() -> (position: PositionCommitment)
        ensures
            position.owner.is_zero(),
            position.market.is_zero(),
            is_zero_digest(position.commitment),
            position == (PositionCommitment {
                owner: position.owner,
                market: position.market,
                commitment: position.commitment,
                collateral_amount: 0,
                is_long: false,
                committed_at_slot: 0,
                last_updated_slot: 0,
                last_cumulative_funding_x64: 0,
                bump: 0,
                padding: [0, 0, 0, 0, 0, 0],
            }),
    {
        PositionCommitment {
            owner: Pubkey::default(),
            market: Pubkey::default(),
            commitment: [0u8; 32],
            collateral_amount: 0,
            is_long: false,
            committed_at_slot: 0,
            last_updated_slot: 0,
            last_cumulative_funding_x64: 0,
            bump: 0,
            padding: [0, 0, 0, 0, 0, 0],
        }
    }
}

/// Outcome of a liquidation check.
#[derive(Clone, Copy, Debug, PartialEq, Eq, Structural)]
pub enum LiquidationCheckResult {
    /// The position stands
    Healthy,
    /// The position can be liquidated
    Underwater {
        /// Collateral left after the loss
        collateral_remaining: u64,
        estimated_loss: u64,
    },
    /// Nothing is left, and the insurance fund covers the rest
    Insolvent { insurance_shortfall: u64 },
}

/// A position was opened.
#[derive(Clone, Copy, Debug)]
pub struct PositionOpenedEvent {
    pub market: Pubkey,
    pub owner: Pubkey,
    pub is_long: bool,
    pub collateral_amount: u64,
    pub commitment: [u8; 32],
    pub slot: u64,
}

/// A position was closed.
#[derive(Clone, Copy, Debug)]
pub struct PositionClosedEvent {
    pub market: Pubkey,
    pub owner: Pubkey,
    pub is_long: bool,
    pub collateral_returned: u64,
    pub slot: u64,
}

/// A position was liquidated.
#[derive(Clone, Copy, Debug)]
pub struct LiquidationEvent {
    pub market: Pubkey,
    pub owner: Pubkey,
    pub collateral_seized: u64,
    pub insurance_shortfall: u64,
    pub slot: u64,
}

/// The funding rate was updated.
#[derive(Clone, Copy, Debug)]
pub struct FundingRateUpdatedEvent {
    pub market: Pubkey,
    pub funding_rate_x64: i128,
    pub long_oi: u64,
    pub short_oi: u64,
    pub slot: u64,
}

/// The mark price was updated.
#[derive(Clone, Copy, Debug)]
pub struct MarkPriceUpdatedEvent {
    pub market: Pubkey,
    pub mark_price_x64: u128,
    pub index_price_x64: u128,
    pub slot: u64,
}

} // verus!
