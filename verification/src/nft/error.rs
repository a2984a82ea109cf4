//! Reasons for which an instruction on a position NFT is refused.
use vstd::prelude::*;

verus! {

#[derive(Clone, Copy, Debug, PartialEq, Eq, Structural)]
pub enum NftError {
    /// The NFT is bound to its owner
    NftNotTransferable,
    /// The caller is not the owner of the position
    NotPositionOwner,
    /// The pool or the tick range is not valid
    InvalidPoolId,
    /// The mint already has a position
    PositionAlreadyMinted,
    /// The account is not the treasury
    InvalidTreasury,
    /// The caller is not the admin of the program
    Unauthorized,
    /// The account holds nothing: it was never set up, or it is closed
    AccountNotInitialized,
}

} // verus!
