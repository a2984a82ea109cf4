pub mod burn_nft;
pub mod mint_nft;
pub mod set_transferable;
pub mod transfer_position;
