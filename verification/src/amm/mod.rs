//! The concentrated-liquidity program: pool shield, sweeps, liquidity locks, swaps and perpetual
//! markets.
pub mod breaker_laws;
pub mod error;
pub mod instructions;
pub mod laws;
pub mod lock_laws;
pub mod market_laws;
pub mod perp_laws;
pub mod shield_laws;
pub mod states;
pub mod swap_laws;
pub mod tipy;
