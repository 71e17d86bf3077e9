use crate::errors::ErrorCode;
use vstd::prelude::*;

verus! {

/// The basis-point scale of the discount record's rates: 10_000 is 100.00%.
pub const DISCOUNT_FEE_RATE_MUL_VALUE: u128 = 10_000;

/// Conversion parameters of one discount token for one pool.
///
/// This is the 14-byte record layout (after its 8-byte tag): the decimal
/// count of the discount token as it was when the record was written, the two
/// rates, an exponent kept for the record's readers, and the conversion rate.
/// The token-conversion rate is bounded strictly below 100.00%, so that a fee
/// is never converted whole; the discount rate may reach 100.00%.
#[derive(Clone, Copy, Debug, PartialEq, Eq, Structural)]
pub struct WhirlpoolDiscountInfo {
    pub token_decimals: u8,
    /// Share of the fee that is converted into the discount token, in basis points.
    pub token_conversion_fee_rate: u16,
    /// Discount applied to a fee paid in the discount token, in basis points.
    pub discount_fee_rate: u16,
    pub expo: u8,
    /// Base units of the discount token that one base unit of token A is worth,
    /// scaled by ten to the discount token's decimals.
    pub discount_token_rate_over_token_a: u64,
}

/// The bounds that a stored record's rates obey.
pub open spec fn rates_within_bounds(token_conversion_fee_rate: u16, discount_fee_rate: u16) -> bool {
    &&& token_conversion_fee_rate < DISCOUNT_FEE_RATE_MUL_VALUE
    &&& discount_fee_rate <= DISCOUNT_FEE_RATE_MUL_VALUE
}

impl WhirlpoolDiscountInfo {
    pub const LEN: usize = 8 + 1 + 2 + 2 + 1 + 8;

    /// Whether the record's rates are within their bounds.
    pub open spec fn wf(&self) -> bool {
        rates_within_bounds(self.token_conversion_fee_rate, self.discount_fee_rate)
    }

    /// Writes the record, after checking both rates against their bounds.
    /// On failure the record is left as it was.
    pub fn initialize(
        &mut self,
        token_decimals: u8,
        token_conversion_fee_rate: u16,
        discount_fee_rate: u16,
        expo: u8,
        discount_token_rate_over_token_a: u64,
    ) -> (r: Result<(), ErrorCode>)
        ensures
            r is Ok <==> rates_within_bounds(token_conversion_fee_rate, discount_fee_rate),
            r is Err ==> r == Err::<(), ErrorCode>(ErrorCode::FeeRateMaxExceeded)
                && *final(self) == *old(self),
            r is Ok ==> *final(self) == (WhirlpoolDiscountInfo {
                token_decimals,
                token_conversion_fee_rate,
                discount_fee_rate,
                expo,
                discount_token_rate_over_token_a,
            }),
            r is Ok ==> final(self).wf(),
    {
        if token_conversion_fee_rate as u128 >= DISCOUNT_FEE_RATE_MUL_VALUE {
            return Err(ErrorCode::FeeRateMaxExceeded);
        }
        if discount_fee_rate as u128 > DISCOUNT_FEE_RATE_MUL_VALUE {
            return Err(ErrorCode::FeeRateMaxExceeded);
        }
        self.token_decimals = token_decimals;
        self.token_conversion_fee_rate = token_conversion_fee_rate;
        self.discount_fee_rate = discount_fee_rate;
        self.expo = expo;
        self.discount_token_rate_over_token_a = discount_token_rate_over_token_a;
        Ok(())
    }
}

} // verus!
