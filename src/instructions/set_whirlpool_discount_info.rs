use crate::errors::ErrorCode;
use crate::state::config::WhirlpoolsConfig;
use crate::state::pubkey::Pubkey;
use crate::state::whirlpool::Whirlpool;
use crate::state::whirlpool_discount_info::{rates_within_bounds, WhirlpoolDiscountInfo};
use crate::util::mint::{mint_layout_valid, unpack_mint_decimals};
use vstd::prelude::*;

verus! {

/// The accounts that registering a discount token for a pool reads.
pub struct SetPoolDiscountInfo {
    /// The address of the config account that is passed.
    pub config_key: Pubkey,
    pub config: WhirlpoolsConfig,
    pub whirlpool: Whirlpool,
    /// The stored data of the discount token's mint.
    pub discount_token_data: Vec<u8>,
    /// The signer of the request.
    pub pool_creator_authority: Pubkey,
}

/// What registering a discount token gives: the first failed check, in the
/// order in which they are made, or the new record. The record keeps the
/// discount token's decimal count as it is now.
pub open spec fn register_discount_outcome(
    accounts: SetPoolDiscountInfo,
    token_conversion_fee_rate: u16,
    discount_fee_rate: u16,
    expo: u8,
    discount_token_rate_over_token_a: u64,
) -> Result<WhirlpoolDiscountInfo, ErrorCode> {
    let data = accounts.discount_token_data@;
    if accounts.config_key.bytes@ != accounts.whirlpool.whirlpools_config.bytes@ {
        Err(ErrorCode::AccountMismatch)
    } else if accounts.pool_creator_authority.bytes@ != accounts.config.pool_creator_authority.bytes@ {
        Err(ErrorCode::AuthorizationFailure)
    } else if !mint_layout_valid(data) {
        Err(ErrorCode::InvalidMintAccount)
    } else if !rates_within_bounds(token_conversion_fee_rate, discount_fee_rate) {
        Err(ErrorCode::FeeRateMaxExceeded)
    } else {
        Ok(
            WhirlpoolDiscountInfo {
                token_decimals: data[44],
                token_conversion_fee_rate,
                discount_fee_rate,
                expo,
                discount_token_rate_over_token_a,
            },
        )
    }
}

/// Creates the discount record of a pool and a discount token. Only the
/// pool's config's pool creator authority may do so; both rates are checked
/// against their basis-point bounds.
pub fn handler(
    accounts: &SetPoolDiscountInfo,
    token_conversion_fee_rate: u16,
    discount_fee_rate: u16,
    expo: u8,
    discount_token_rate_over_token_a: u64,
) -> (r: Result<WhirlpoolDiscountInfo, ErrorCode>)
    ensures
        r == register_discount_outcome(
            *accounts,
            token_conversion_fee_rate,
            discount_fee_rate,
            expo,
            discount_token_rate_over_token_a,
        ),
        r matches Ok(info) ==> info.wf(),
{
    if !accounts.config_key.same_key(&accounts.whirlpool.whirlpools_config) {
        return Err(ErrorCode::AccountMismatch);
    }
    if !accounts.pool_creator_authority.same_key(&accounts.config.pool_creator_authority) {
        return Err(ErrorCode::AuthorizationFailure);
    }
    let decimals = match unpack_mint_decimals(accounts.discount_token_data.as_slice()) {
        Some(d) => d,
        None => {
            return Err(ErrorCode::InvalidMintAccount);
        },
    };
    let mut whirlpool_discount_info = WhirlpoolDiscountInfo {
        token_decimals: 0,
        token_conversion_fee_rate: 0,
        discount_fee_rate: 0,
        expo: 0,
        discount_token_rate_over_token_a: 0,
    };
    match whirlpool_discount_info.initialize(
        decimals,
        token_conversion_fee_rate,
        discount_fee_rate,
        expo,
        discount_token_rate_over_token_a,
    ) {
        Ok(()) => Ok(whirlpool_discount_info),
        Err(e) => Err(e),
    }
}

/// A rate above 10_000 basis points is never registered: once the config,
/// the signer and the discount token's data are right, the request fails
/// `FeeRateMaxExceeded`.
pub proof fn lemma_rate_above_bound_rejected(
    accounts: SetPoolDiscountInfo,
    token_conversion_fee_rate: u16,
    discount_fee_rate: u16,
    expo: u8,
    discount_token_rate_over_token_a: u64,
)
    requires
        token_conversion_fee_rate > 10_000 || discount_fee_rate > 10_000,
        accounts.config_key.bytes@ == accounts.whirlpool.whirlpools_config.bytes@,
        accounts.pool_creator_authority.bytes@ == accounts.config.pool_creator_authority.bytes@,
        mint_layout_valid(accounts.discount_token_data@),
    ensures
        register_discount_outcome(
            accounts,
            token_conversion_fee_rate,
            discount_fee_rate,
            expo,
            discount_token_rate_over_token_a,
        ) == Err::<WhirlpoolDiscountInfo, ErrorCode>(ErrorCode::FeeRateMaxExceeded),
{
}

} // verus!
