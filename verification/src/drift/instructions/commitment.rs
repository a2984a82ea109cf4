//! Opening, closing and checking positions of which only a digest is public.
use vstd::prelude::*;

use crate::commitment::has_only_zeros;
#[allow(unused_imports)]
use crate::commitment::{is_zero_digest, position_digest};
use crate::drift::error::ErrorCode;
use crate::drift::pnl::settle_position;
#[allow(unused_imports)]
use crate::drift::pnl::{empty_position_pays_its_collateral, payout};
use crate::drift::state::perp_market::PerpMarket;
use crate::drift::state::position_commitment::PositionCommitment;
use crate::keys::Pubkey;

verus! {

/// Accounts of [`handler_open_perp_with_commitment`].
#[derive(Clone, Copy, Debug)]
pub struct OpenPerpWithCommitment {
    pub owner: Pubkey,
    pub market_key: Pubkey,
    pub perp_market: PerpMarket,
    /// Bump seed of the new position account
    pub position_bump: u8,
}

/// Accounts of [`handler_close_perp_with_reveal`].
#[derive(Clone, Copy, Debug)]
pub struct ClosePerpWithReveal {
    pub owner: Pubkey,
    pub market_key: Pubkey,
    pub perp_market: PerpMarket,
    /// The position; none where it is closed
    pub position_commitment: Option<PositionCommitment>,
}

/// Accounts of [`handler_perp_shield_liquidation_check`].
#[derive(Clone, Copy, Debug)]
pub struct PerpShieldLiquidationCheck {
    pub liquidator: Pubkey,
    pub perp_market: PerpMarket,
    pub position_commitment: PositionCommitment,
    pub position_owner: Pubkey,
}

/// Outcome of a liquidation check.
#[derive(Clone, Copy, Debug, PartialEq, Eq, Structural)]
pub enum LiquidationCheckResult {
    /// Nothing to do
    Healthy,
    /// The position can be liquidated
    Underwater { collateral_remaining: u64, estimated_loss: u64 },
    /// The insurance fund has to cover the gap
    Insolvent { insurance_shortfall: u64 },
}

/// A position was closed.
#[derive(Clone, Copy, Debug)]
pub struct PositionClosedEvent {
    pub market: Pubkey,
    pub owner: Pubkey,
    pub is_long: bool,
    pub collateral_returned: u64,
    pub slot: u64,
}

/// The end of a position as the host carries it out.
#[derive(Clone, Copy, Debug)]
pub struct PositionClose {
    /// Amount that moves from the collateral vault to the trader
    pub collateral_returned: u64,
    /// Account that receives the lamports of the closed position account
    pub rent_to: Pubkey,
    pub event: PositionClosedEvent,
}

/// A position as it is opened.
pub open spec fn fresh_position(
    ctx: OpenPerpWithCommitment,
    collateral_amount: u64,
    is_long: bool,
    commitment: [u8; 32],
    slot: u64,
) -> PositionCommitment {
    PositionCommitment {
        owner: ctx.owner,
        market: ctx.market_key,
        commitment,
        collateral_amount,
        is_long,
        committed_at_slot: slot,
        last_updated_slot: slot,
        bump: ctx.position_bump,
        padding: [0, 0, 0, 0, 0, 0, 0],
    }
}

/// Opens a position under the digest of its private details. The host moves `collateral_amount`
/// from the trader to the collateral vault.
pub fn handler_open_perp_with_commitment(
    ctx: &mut OpenPerpWithCommitment,
    _market_index: u16,
    collateral_amount: u64,
    is_long: bool,
    commitment: [u8; 32],
    slot: u64,
) -> (outcome: Result<PositionCommitment, ErrorCode>)
    ensures
        outcome == (if old(ctx).perp_market.reduce_only {
            Err(ErrorCode::MarketPaused)
        } else if is_zero_digest(commitment) {
            Err(ErrorCode::InvalidCommitment)
        } else {
            Ok(fresh_position(*old(ctx), collateral_amount, is_long, commitment, slot))
        }),
        *final(ctx) == (if outcome is Ok {
            OpenPerpWithCommitment {
                perp_market: old(ctx).perp_market.user_joined(),
                ..*old(ctx)
            }
        } else {
            *old(ctx)
        }),
{
    if ctx.perp_market.reduce_only {
        return Err(ErrorCode::MarketPaused);
    }
    if has_only_zeros(&commitment) {
        return Err(ErrorCode::InvalidCommitment);
    }
    ctx.perp_market.number_of_users_with_base =
    ctx.perp_market.number_of_users_with_base.saturating_add(1);
    ctx.perp_market.number_of_users = ctx.perp_market.number_of_users.saturating_add(1);
    Ok(
        PositionCommitment {
            owner: ctx.owner,
            market: ctx.market_key,
            commitment,
            collateral_amount,
            is_long,
            committed_at_slot: slot,
            last_updated_slot: slot,
            bump: ctx.position_bump,
            padding: [0, 0, 0, 0, 0, 0, 0],
        },
    )
}

impl ClosePerpWithReveal {
    /// Whether these details are the ones that the position was opened with.
    pub open spec fn opened_by(
        self,
        size: u64,
        leverage_bps: u16,
        entry_price_x64: u128,
        liquidation_price_x64: u128,
        salt: [u8; 16],
    ) -> bool {
        match self.position_commitment {
            Some(position) => position.opened_by(
                size,
                leverage_bps,
                entry_price_x64,
                liquidation_price_x64,
                salt,
            ),
            None => false,
        }
    }

    /// The accounts after a close: the market has one position less, and the position account is
    /// closed.
    pub open spec fn closed(self) -> ClosePerpWithReveal {
        ClosePerpWithReveal {
            perp_market: self.perp_market.user_left(),
            position_commitment: None,
            ..self
        }
    }
}

/// What closing a position comes to, where its details `matches` the digest or do not. The owner is
/// paid the collateral with the profit or loss of the revealed position at the oracle price, and
/// gets the lamports of the position account.
pub open spec fn close_outcome(
    ctx: ClosePerpWithReveal,
    matches: bool,
    size: u64,
    entry_price_x64: u128,
    slot: u64,
) -> Result<PositionClose, ErrorCode> {
    match ctx.position_commitment {
        None => Err(ErrorCode::AccountNotInitialized),
        Some(position) => if position.owner != ctx.owner {
            Err(ErrorCode::NotSender)
        } else if !matches {
            Err(ErrorCode::InvalidCommitment)
        } else {
            let collateral_returned = payout(
                position.collateral_amount,
                position.is_long,
                size,
                entry_price_x64,
                ctx.perp_market.last_oracle_price,
            );
            Ok(
                PositionClose {
                    collateral_returned,
                    rent_to: ctx.owner,
                    event: PositionClosedEvent {
                        market: ctx.market_key,
                        owner: ctx.owner,
                        is_long: position.is_long,
                        collateral_returned,
                        slot,
                    },
                },
            )
        },
    }
}

/// Closes a position whose revealed details match its digest, or do not.
pub fn close_perp(
    ctx: &mut ClosePerpWithReveal,
    matches: bool,
    size: u64,
    entry_price_x64: u128,
    slot: u64,
) -> (outcome: Result<PositionClose, ErrorCode>)
    ensures
        outcome == close_outcome(*old(ctx), matches, size, entry_price_x64, slot),
        *final(ctx) == (if outcome is Ok {
            old(ctx).closed()
        } else {
            *old(ctx)
        }),
{
    let position = match ctx.position_commitment {
        Some(position) => position,
        None => {
            return Err(ErrorCode::AccountNotInitialized);
        },
    };
    if position.owner != ctx.owner {
        return Err(ErrorCode::NotSender);
    }
    if !matches {
        return Err(ErrorCode::InvalidCommitment);
    }
    let return_amount: u64 = settle_position(
        position.collateral_amount,
        position.is_long,
        size,
        entry_price_x64,
        ctx.perp_market.last_oracle_price,
    );
    ctx.perp_market.number_of_users_with_base =
    ctx.perp_market.number_of_users_with_base.saturating_sub(1);
    ctx.perp_market.number_of_users = ctx.perp_market.number_of_users.saturating_sub(1);
    ctx.position_commitment = None;
    Ok(
        PositionClose {
            collateral_returned: return_amount,
            rent_to: ctx.owner,
            event: PositionClosedEvent {
                market: ctx.market_key,
                owner: ctx.owner,
                is_long: position.is_long,
                collateral_returned: return_amount,
                slot,
            },
        },
    )
}

/// Closes a position whose owner reveals its details. What is returned follows from the position
/// alone: the amount that the caller names has no effect.
pub fn handler_close_perp_with_reveal(
    ctx: &mut ClosePerpWithReveal,
    _market_index: u16,
    _collateral_to_return: u64,
    revealed_size: u64,
    revealed_leverage_bps: u16,
    revealed_entry_price_x64: u128,
    revealed_liquidation_price_x64: u128,
    revealed_salt: [u8; 16],
    slot: u64,
) -> (outcome: Result<PositionClose, ErrorCode>)
    ensures
        outcome == close_outcome(
            *old(ctx),
            old(ctx).opened_by(
                revealed_size,
                revealed_leverage_bps,
                revealed_entry_price_x64,
                revealed_liquidation_price_x64,
                revealed_salt,
            ),
            revealed_size,
            revealed_entry_price_x64,
            slot,
        ),
        *final(ctx) == (if outcome is Ok {
            old(ctx).closed()
        } else {
            *old(ctx)
        }),
{
    let matches = match ctx.position_commitment {
        Some(position) => position.verify_reveal(
            revealed_size,
            revealed_leverage_bps,
            revealed_entry_price_x64,
            revealed_liquidation_price_x64,
            revealed_salt,
        ),
        None => false,
    };
    close_perp(ctx, matches, revealed_size, revealed_entry_price_x64, slot)
}

/// Whether the oracle price has reached the liquidation price from the losing side.
pub open spec fn is_crossed(is_long: bool, price: int, liquidation_price: int) -> bool {
    if is_long {
        price <= liquidation_price
    } else {
        price >= liquidation_price
    }
}

/// What comes of a position that can be liquidated: nine tenths of its collateral count as lost. It
/// is underwater where something remains, and insolvent where nothing does; what counts as lost
/// never exceeds the collateral, so that the insurance fund has no shortfall to cover.
pub open spec fn liquidated(collateral: u64) -> LiquidationCheckResult {
    if collateral / 10 == 0 {
        LiquidationCheckResult::Insolvent { insurance_shortfall: 0 }
    } else {
        LiquidationCheckResult::Underwater {
            collateral_remaining: collateral / 10,
            estimated_loss: (collateral - collateral / 10) as u64,
        }
    }
}

/// What a liquidation check comes to, where the details `matches` the digest or do not.
pub open spec fn check_outcome(
    ctx: PerpShieldLiquidationCheck,
    matches: bool,
    liquidation_price: u128,
) -> Result<LiquidationCheckResult, ErrorCode> {
    if !matches {
        Err(ErrorCode::InvalidCommitment)
    } else if ctx.perp_market.reduce_only && ctx.perp_market.last_oracle_price <= 0 {
        Err(ErrorCode::MarketNotFound)
    } else if is_crossed(
        ctx.position_commitment.is_long,
        ctx.perp_market.last_oracle_price as int,
        liquidation_price as int,
    ) {
        Ok(liquidated(ctx.position_commitment.collateral_amount))
    } else {
        Ok(LiquidationCheckResult::Healthy)
    }
}

/// Checks whether a position can be liquidated, where its revealed details match its digest, or do
/// not.
pub fn check_liquidation(
    ctx: &PerpShieldLiquidationCheck,
    matches: bool,
    liquidation_price_x64: u128,
) -> (outcome: Result<LiquidationCheckResult, ErrorCode>)
    ensures
        outcome == check_outcome(*ctx, matches, liquidation_price_x64),
{
    if !matches {
        return Err(ErrorCode::InvalidCommitment);
    }
    if ctx.perp_market.reduce_only && ctx.perp_market.last_oracle_price <= 0 {
        return Err(ErrorCode::MarketNotFound);
    }
    let is_liquidatable = if ctx.position_commitment.is_long {
        ctx.perp_market.is_at_or_below(liquidation_price_x64)
    } else {
        ctx.perp_market.is_at_or_above(liquidation_price_x64)
    };
    if !is_liquidatable {
        return Ok(LiquidationCheckResult::Healthy);
    }
    let collateral_amount: u64 = ctx.position_commitment.collateral_amount;
    let collateral_remaining: u64 = collateral_amount / 10;
    if collateral_remaining == 0 {
        return Ok(LiquidationCheckResult::Insolvent { insurance_shortfall: 0 });
    }
    Ok(
        LiquidationCheckResult::Underwater {
            collateral_remaining,
            estimated_loss: collateral_amount - collateral_remaining,
        },
    )
}

/// Verifies revealed details against the digest of a position, and checks whether it can be
/// liquidated.
pub fn handler_perp_shield_liquidation_check(
    ctx: &PerpShieldLiquidationCheck,
    revealed_size: u64,
    revealed_leverage_bps: u16,
    revealed_entry_price_x64: u128,
    revealed_liquidation_price_x64: u128,
    revealed_salt: [u8; 16],
) -> (outcome: Result<LiquidationCheckResult, ErrorCode>)
    ensures
        outcome == check_outcome(
            *ctx,
            ctx.position_commitment.opened_by(
                revealed_size,
                revealed_leverage_bps,
                revealed_entry_price_x64,
                revealed_liquidation_price_x64,
                revealed_salt,
            ),
            revealed_liquidation_price_x64,
        ),
{
    let matches = ctx.position_commitment.verify_reveal(
        revealed_size,
        revealed_leverage_bps,
        revealed_entry_price_x64,
        revealed_liquidation_price_x64,
        revealed_salt,
    );
    check_liquidation(ctx, matches, revealed_liquidation_price_x64)
}

// Laws.
/// A position that was opened under the digest of its details is closed by its owner with these
/// details, and pays the collateral that came in with the profit or loss of the position.
pub proof fn owner_closes_what_was_opened(
    open: OpenPerpWithCommitment,
    close: ClosePerpWithReveal,
    collateral_amount: u64,
    is_long: bool,
    commitment: [u8; 32],
    size: u64,
    leverage_bps: u16,
    entry_price_x64: u128,
    liquidation_price_x64: u128,
    salt: [u8; 16],
    opened_at: u64,
    slot: u64,
)
    requires
        commitment@ == position_digest(
            size,
            leverage_bps,
            entry_price_x64,
            liquidation_price_x64,
            salt,
        ),
        close.owner == open.owner,
        close.position_commitment == Some(
            fresh_position(open, collateral_amount, is_long, commitment, opened_at),
        ),
    ensures
        close_outcome(
            close,
            close.opened_by(
                size,
                leverage_bps,
                entry_price_x64,
                liquidation_price_x64,
                salt,
            ),
            size,
            entry_price_x64,
            slot,
        ) matches Ok(end) && end.event.is_long == is_long && end.rent_to == open.owner
            && end.collateral_returned == payout(
            collateral_amount,
            is_long,
            size,
            entry_price_x64,
            close.perp_market.last_oracle_price,
        ),
{
}

/// A position of no size gives back exactly its collateral.
pub proof fn empty_position_gives_back_its_collateral(
    ctx: ClosePerpWithReveal,
    position: PositionCommitment,
    entry_price_x64: u128,
    slot: u64,
)
    requires
        ctx.position_commitment == Some(position),
        ctx.owner == position.owner,
    ensures
        close_outcome(ctx, true, 0, entry_price_x64, slot) matches Ok(end)
            && end.collateral_returned == position.collateral_amount,
{
    empty_position_pays_its_collateral(
        position.collateral_amount,
        position.is_long,
        entry_price_x64,
        ctx.perp_market.last_oracle_price,
    );
}

/// Nobody but the owner closes a position, whatever they reveal.
pub proof fn only_owner_closes(
    ctx: ClosePerpWithReveal,
    position: PositionCommitment,
    matches: bool,
    size: u64,
    entry_price_x64: u128,
    slot: u64,
)
    requires
        ctx.position_commitment == Some(position),
        ctx.owner != position.owner,
    ensures
        close_outcome(ctx, matches, size, entry_price_x64, slot) == Err::<PositionClose, ErrorCode>(
            ErrorCode::NotSender,
        ),
{
}

/// A position is closed once: its account is gone.
pub proof fn closed_position_is_gone(
    ctx: ClosePerpWithReveal,
    again: ClosePerpWithReveal,
    matches: bool,
    size: u64,
    entry_price_x64: u128,
    slot: u64,
)
    requires
        again.position_commitment == ctx.closed().position_commitment,
    ensures
        close_outcome(again, matches, size, entry_price_x64, slot) == Err::<
            PositionClose,
            ErrorCode,
        >(ErrorCode::AccountNotInitialized),
{
}

/// Without the details behind its digest a position can neither be closed nor be liquidated.
pub proof fn digest_guards_position(
    close: ClosePerpWithReveal,
    check: PerpShieldLiquidationCheck,
    size: u64,
    entry_price_x64: u128,
    liquidation_price: u128,
    slot: u64,
)
    ensures
        close_outcome(close, false, size, entry_price_x64, slot) is Err,
        check_outcome(check, false, liquidation_price) == Err::<
            LiquidationCheckResult,
            ErrorCode,
        >(ErrorCode::InvalidCommitment),
{
}

/// A position that is underwater has collateral left, and its collateral splits into what remains
/// and what counts as lost. One that has nothing left is insolvent, and asks of the insurance fund
/// no more than that pays.
pub proof fn liquidation_splits_collateral(
    ctx: PerpShieldLiquidationCheck,
    matches: bool,
    liquidation_price: u128,
)
    ensures
        match check_outcome(ctx, matches, liquidation_price) {
            Ok(LiquidationCheckResult::Underwater { collateral_remaining, estimated_loss }) => {
                &&& collateral_remaining > 0
                &&& collateral_remaining + estimated_loss
                    == ctx.position_commitment.collateral_amount
            },
            Ok(LiquidationCheckResult::Insolvent { insurance_shortfall }) => {
                &&& ctx.position_commitment.collateral_amount / 10 == 0
                &&& insurance_shortfall <= ctx.perp_market.quote_max_insurance
            },
            _ => true,
        },
{
}

/// A long position is liquidated at every price at or below its liquidation price, one below zero
/// included.
pub proof fn long_is_liquidated_below_its_price(
    ctx: PerpShieldLiquidationCheck,
    liquidation_price: u128,
)
    requires
        ctx.position_commitment.is_long,
        !ctx.perp_market.reduce_only,
        ctx.perp_market.last_oracle_price <= liquidation_price,
    ensures
        check_outcome(ctx, true, liquidation_price) == Ok::<LiquidationCheckResult, ErrorCode>(
            liquidated(ctx.position_commitment.collateral_amount),
        ),
{
}

} // verus!
