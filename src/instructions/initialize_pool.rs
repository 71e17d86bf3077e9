use core::cmp::Ordering;
use crate::errors::ErrorCode;
use crate::state::config::WhirlpoolsConfig;
use crate::state::fee_tier::FeeTier;
use crate::state::pubkey::{key_cmp, Pubkey};
use crate::state::whirlpool::Whirlpool;
use crate::state::whirlpool_registry::{contains_key, key_of, WhirlpoolRegistry};
use crate::util::mint::{is_native_mint, mint_layout_valid, native_mint_bytes, unpack_mint_decimals};
use vstd::prelude::*;

verus! {

/// The accounts that creating a pool reads.
pub struct InitializePool {
    /// The address of the config that the pool is created under.
    pub whirlpools_config_key: Pubkey,
    pub whirlpools_config: WhirlpoolsConfig,
    pub token_mint_a: Pubkey,
    /// The stored data of mint A, checked unless A is the native mint.
    pub token_mint_a_data: Vec<u8>,
    pub token_mint_b: Pubkey,
    /// The signer of the request.
    pub pool_creator: Pubkey,
    pub token_vault_a: Pubkey,
    pub token_vault_b: Pubkey,
    pub fee_tier: FeeTier,
}

/// The checks that a request to create a pool must pass, in the order in
/// which they are made, and the first one that fails.
///
/// The mints must differ. Unless mint A is the native mint, its data must be
/// a valid mint and its address must be strictly below mint B's, so that an
/// unordered pair of mints has one canonical order.
pub open spec fn validate_pool(accounts: InitializePool, tick_spacing: u16) -> Result<(), ErrorCode> {
    let config_key = accounts.whirlpools_config_key;
    let mint_a = accounts.token_mint_a;
    let mint_b = accounts.token_mint_b;
    if accounts.pool_creator.bytes@ != accounts.whirlpools_config.pool_creator_authority.bytes@ {
        Err(ErrorCode::AuthorizationFailure)
    } else if accounts.fee_tier.whirlpools_config.bytes@ != config_key.bytes@
        || accounts.fee_tier.tick_spacing != tick_spacing {
        Err(ErrorCode::AccountMismatch)
    } else if mint_a.bytes@ == mint_b.bytes@ {
        Err(ErrorCode::InvalidTokenMintOrder)
    } else if mint_a.bytes@ == native_mint_bytes() {
        Ok(())
    } else if !mint_layout_valid(accounts.token_mint_a_data@) {
        Err(ErrorCode::InvalidMintAccount)
    } else if key_cmp(mint_a, mint_b) != Ordering::Less {
        Err(ErrorCode::InvalidTokenMintOrder)
    } else {
        Ok(())
    }
}

/// The pool that a valid request creates, its fee rate taken from the fee tier.
pub open spec fn new_pool(
    accounts: InitializePool,
    whirlpool_bump: u8,
    tick_spacing: u16,
    initial_sqrt_price: u128,
) -> Whirlpool {
    Whirlpool {
        whirlpools_config: accounts.whirlpools_config_key,
        whirlpool_bump,
        tick_spacing,
        fee_rate: accounts.fee_tier.default_fee_rate,
        liquidity: 0,
        sqrt_price: initial_sqrt_price,
        protocol_fee_owed_a: 0,
        protocol_fee_owed_b: 0,
        token_mint_a: accounts.token_mint_a,
        token_vault_a: accounts.token_vault_a,
        fee_growth_global_a: 0,
        token_mint_b: accounts.token_mint_b,
        token_vault_b: accounts.token_vault_b,
        fee_growth_global_b: 0,
        is_enabled: true,
    }
}

/// Creates a pool and stores it, or fails with the first check that the
/// request does not pass; a pool whose config, mints and tick spacing are
/// those of a stored pool fails `PoolAlreadyInitialized`. On failure nothing
/// is stored.
pub fn handler(
    accounts: &InitializePool,
    registry: &mut WhirlpoolRegistry,
    whirlpool_bump: u8,
    tick_spacing: u16,
    initial_sqrt_price: u128,
) -> (r: Result<Whirlpool, ErrorCode>)
    requires
        old(registry).wf(),
    ensures
        final(registry).wf(),
        validate_pool(*accounts, tick_spacing) matches Err(e) ==> r == Err::<Whirlpool, ErrorCode>(e),
        validate_pool(*accounts, tick_spacing) is Ok ==> {
            let pool = new_pool(*accounts, whirlpool_bump, tick_spacing, initial_sqrt_price);
            if contains_key(old(registry)@, key_of(pool)) {
                r == Err::<Whirlpool, ErrorCode>(ErrorCode::PoolAlreadyInitialized)
            } else {
                r == Ok::<Whirlpool, ErrorCode>(pool)
            }
        },
        r is Ok ==> final(registry)@ == old(registry)@.push(r->Ok_0),
        r is Err ==> final(registry)@ == old(registry)@,
{
    let token_mint_a = accounts.token_mint_a;
    let token_mint_b = accounts.token_mint_b;

    if !accounts.pool_creator.same_key(&accounts.whirlpools_config.pool_creator_authority) {
        return Err(ErrorCode::AuthorizationFailure);
    }
    if !accounts.fee_tier.whirlpools_config.same_key(&accounts.whirlpools_config_key)
        || accounts.fee_tier.tick_spacing != tick_spacing {
        return Err(ErrorCode::AccountMismatch);
    }
    if token_mint_a.same_key(&token_mint_b) {
        return Err(ErrorCode::InvalidTokenMintOrder);
    }
    // Only check the mint's data when token A is not the native mint.
    if !is_native_mint(&token_mint_a) {
        if unpack_mint_decimals(accounts.token_mint_a_data.as_slice()).is_none() {
            return Err(ErrorCode::InvalidMintAccount);
        }
        match token_mint_a.cmp_key(&token_mint_b) {
            Ordering::Less => {},
            _ => {
                return Err(ErrorCode::InvalidTokenMintOrder);
            },
        }
    }

    let whirlpool = Whirlpool::new(
        accounts.whirlpools_config_key,
        whirlpool_bump,
        tick_spacing,
        initial_sqrt_price,
        accounts.fee_tier.default_fee_rate,
        token_mint_a,
        accounts.token_vault_a,
        token_mint_b,
        accounts.token_vault_b,
    );
    match registry.insert_if_absent(whirlpool) {
        Ok(()) => Ok(whirlpool),
        Err(e) => Err(e),
    }
}

} // verus!

verus! {

/// Two equal mints never make a pool: once the signer is the config's pool
/// creator authority and the fee tier serves the config and tick spacing, the
/// request fails `InvalidTokenMintOrder`.
pub proof fn lemma_equal_mints_rejected(accounts: InitializePool, tick_spacing: u16)
    requires
        accounts.token_mint_a.bytes@ == accounts.token_mint_b.bytes@,
        accounts.pool_creator.bytes@ == accounts.whirlpools_config.pool_creator_authority.bytes@,
        accounts.fee_tier.whirlpools_config.bytes@ == accounts.whirlpools_config_key.bytes@,
        accounts.fee_tier.tick_spacing == tick_spacing,
    ensures
        validate_pool(accounts, tick_spacing) == Err::<(), ErrorCode>(
            ErrorCode::InvalidTokenMintOrder,
        ),
{
}

/// A mint A that is not the native mint and is not strictly below mint B
/// never makes a pool: once the signer and the fee tier are the right ones and
/// mint A's data is a valid mint, the request fails `InvalidTokenMintOrder`.
pub proof fn lemma_unordered_mints_rejected(accounts: InitializePool, tick_spacing: u16)
    requires
        accounts.token_mint_a.bytes@ != native_mint_bytes(),
        key_cmp(accounts.token_mint_a, accounts.token_mint_b) != Ordering::Less,
        mint_layout_valid(accounts.token_mint_a_data@),
        accounts.pool_creator.bytes@ == accounts.whirlpools_config.pool_creator_authority.bytes@,
        accounts.fee_tier.whirlpools_config.bytes@ == accounts.whirlpools_config_key.bytes@,
        accounts.fee_tier.tick_spacing == tick_spacing,
    ensures
        validate_pool(accounts, tick_spacing) == Err::<(), ErrorCode>(
            ErrorCode::InvalidTokenMintOrder,
        ),
{
}

} // verus!
