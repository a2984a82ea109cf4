//! Accounts of the pool program.
pub mod nebula_shield;
pub mod oracle;
pub mod perp_market;
pub mod perp_shield;
pub mod pool;
