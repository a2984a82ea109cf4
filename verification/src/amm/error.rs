//! Reasons for which an instruction of the pool program is refused.
use vstd::prelude::*;

verus! {

#[derive(Clone, Copy, Debug, PartialEq, Eq, Structural)]
pub enum ErrorCode {
    InvalidTickIndex,
    JitBackRunDetected,
    NotSender,
    NotApproved,
    ArbDisabled,
    InvalidTreasury,
    ArbCooldownActive,
    InsufficientOracleData,
    SpreadTooSmall,
    NoArbProfit,
    ArithmeticOverflow,
    DivisionByZero,
    ZeroLiquidity,
    AmountBelowMin,
    MaxLeverageExceeded,
    InsufficientCollateral,
    MarketPaused,
    MarketNotFound,
    InvalidCommitment,
    ZeroSqrtPrice,
    FundingRateStale,
    InsuranceFundDepleted,
    ShieldNotInitialized,
    CircuitBreakerActive,
    InvalidInputPoolVault,
    TooSmallInputOrOutputAmount,
    CalculateOverflow,
    TooLittleOutputReceived,
    TooMuchInputPaid,
    /// An account constraint that has no error of its own does not hold.
    ConstraintRaw,
    /// An account is not the one that another account names.
    ConstraintAddress,
    /// A value is not above its lower limit.
    RequireGtViolated,
    /// A value is below its lower limit.
    RequireGteViolated,
    /// Two values that have to agree differ.
    RequireEqViolated,
    /// The price arithmetic of the host refused a price or a tick.
    PriceOutOfRange,
}

} // verus!
