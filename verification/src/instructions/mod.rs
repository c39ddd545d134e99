pub mod unshield;
pub mod zk_unshield;
pub mod deposit;
pub mod initialize_vault;
pub mod convert_to_airtoken;
pub mod close_vault;
pub mod refresh_ots;
pub mod claim_voucher;
