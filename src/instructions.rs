pub mod fund_to_campaign;
pub mod initialize_campaign;
pub mod initialize_platform;
pub mod refund_to_donor;
pub mod set_campaign_unlocked;
pub mod set_platform_admin;
pub mod set_platform_fee;
pub mod withdraw_from_campaign;
