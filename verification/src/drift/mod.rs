//! Perpetual positions under a commitment: only a digest of the details is public, until the owner
//! or a liquidator reveals them.
pub mod error;
pub mod instructions;
pub mod laws;
pub mod pnl;
pub mod state;
