use vstd::prelude::*;

verus! {

/// What one swap computation leaves behind: the amounts of each token that
/// move, and the pool state that follows the swap.
#[derive(Clone, Copy, Debug, PartialEq, Eq, Structural)]
pub struct PostSwapUpdate {
    pub amount_a: u64,
    pub amount_b: u64,
    pub next_liquidity: u128,
    pub next_sqrt_price: u128,
    /// The fee growth of the fee's token once the swap is applied.
    pub next_fee_growth_global: u128,
    /// The protocol fee owed in the fee's token once the swap is applied.
    pub next_protocol_fee: u64,
}

/// The outcome of a swap computed with a fee discount: the update itself, the
/// part of the fee that the discount saves the payer, and the fee that is
/// settled by burning the discount token. Both fees are in the token that the
/// swap's fee is charged in.
#[derive(Clone, Copy, Debug, PartialEq, Eq, Structural)]
pub struct DiscountedSwapUpdate {
    pub swap_update: PostSwapUpdate,
    pub discount_amount_accumulated: u64,
    pub burn_fee_accumulated: u64,
}

} // verus!
