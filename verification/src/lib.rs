//! Verified core of the Nebula programs: the concentrated-liquidity pool shield, perpetual
//! markets with their circuit breaker, the standalone shield program, position NFTs and the
//! commitment overlay for perpetual positions.
//!
//! Every instruction is a function from the plain contents of its accounts to their next contents
//! and to what the host has to do: move tokens, publish an event, answer a price query. Reading
//! the clock, loading accounts and calling other programs stay with the host.
pub mod amm;
pub mod arith;
pub mod commitment;
pub mod drift;
pub mod keys;
pub mod nft;
pub mod pricing;
pub mod shield;
