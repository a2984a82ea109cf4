pub mod perp_market;
pub mod position_commitment;
