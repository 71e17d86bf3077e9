pub mod config;
pub mod fee_tier;
pub mod pubkey;
pub mod whirlpool;
pub mod whirlpool_discount_info;
pub mod whirlpool_registry;
