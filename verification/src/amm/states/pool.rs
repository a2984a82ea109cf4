//! The part of a pool account that the shield and the swap read or write.
use vstd::prelude::*;

use crate::keys::Pubkey;

verus! {

#[derive(Clone, Copy, Debug)]
pub struct PoolState {
    /// Fee configuration of the pool
    pub amm_config: Pubkey,
    /// Account that holds the price observations of the pool
    pub observation_key: Pubkey,
    /// Mint of token 0
    pub token_mint_0: Pubkey,
    /// Vault of token 0
    pub token_vault_0: Pubkey,
    /// Vault of token 1
    pub token_vault_1: Pubkey,
    /// Liquidity in range
    pub liquidity: u128,
    /// Square root of the price, in 64.64 fixed point
    pub sqrt_price_x64: u128,
    /// Tick of the price
    pub tick_current: i32,
    /// Protocol fees owed in token 0
    pub protocol_fees_token_0: u64,
    /// Protocol fees owed in token 1
    pub protocol_fees_token_1: u64,
    /// Slot of the most recent swap
    pub open_time: u64,
    /// First word of the reserved space: swaps need a later timestamp
    pub padding1: u64,
}

} // verus!
