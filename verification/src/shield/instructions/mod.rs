pub mod arb_sweep;
pub mod check_jit;
pub mod initialize_shield;
pub mod update_config;
