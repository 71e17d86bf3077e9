pub mod initialize_pool;
pub mod set_enable_flag;
pub mod set_pool_creator_authority;
pub mod set_whirlpool_discount_info;
pub mod swap_with_fee_discount;
