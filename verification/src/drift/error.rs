//! Reasons for which an instruction on a committed position is refused.
use vstd::prelude::*;

verus! {

#[derive(Clone, Copy, Debug, PartialEq, Eq, Structural)]
pub enum ErrorCode {
    MarketPaused,
    InvalidCommitment,
    NotSender,
    MarketNotFound,
    InsuranceFundDepleted,
    /// The account holds nothing: it was never opened, or it is closed
    AccountNotInitialized,
}

} // verus!
