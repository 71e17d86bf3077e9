//! Administrative and fee-settlement layer of a concentrated-liquidity pool
//! program: pool creation with a canonical mint order, a per-pool discount
//! record, and the conversion of swap fees into an amount of a discount token
//! to burn.
pub mod errors;
pub mod instructions;
pub mod manager;
pub mod state;
pub mod util;
