pub mod fee_discount;
pub mod mint;
