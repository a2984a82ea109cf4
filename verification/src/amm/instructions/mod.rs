//! Instructions of the pool program.
pub mod arb_sweep;
pub mod jit_protection;
pub mod nebula_shield;
pub mod perp_market;
pub mod perp_shield;
pub mod swap_steps;
pub mod swap_v2;
