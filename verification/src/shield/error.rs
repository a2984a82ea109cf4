//! Reasons for which an instruction of the shield program is refused.
use vstd::prelude::*;

verus! {

#[derive(Clone, Copy, Debug, PartialEq, Eq, Structural)]
pub enum ShieldError {
    /// Liquidity is still locked
    JitBackRunDetected,
    /// The shield of the pool is off
    ShieldDisabled,
    /// The last sweep is too recent
    ArbCooldownActive,
    /// The spread is below the configured one
    SpreadTooSmall,
    /// A sweep gains nothing
    NoArbProfit,
    /// There are too few price observations
    InsufficientOracleData,
    /// The account is not the treasury
    InvalidTreasury,
    ArithmeticOverflow,
    DivisionByZero,
    /// The amount of a sweep is outside the configured range
    AmountBelowMin,
    /// The caller may not sweep this pool or change its configuration
    NotArbAuthority,
    /// The caller is not the admin of the program
    NotAdmin,
    /// The configuration belongs to another pool
    PoolMismatch,
    /// A lock is longer than the ceiling
    LockSlotsExceedMax,
    /// A share is above the whole
    InvalidShareBps,
    /// The smallest spread is zero
    ZeroSpreadBps,
    /// The smallest sweep is not below the largest
    InvalidSweepRange,
    /// The averaging window is too short
    TwapWindowTooShort,
}

} // verus!
