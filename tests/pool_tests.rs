use std::cmp::Ordering;
use whirlpool::errors::ErrorCode;
use whirlpool::instructions::initialize_pool::{handler as initialize_pool, InitializePool};
use whirlpool::instructions::set_enable_flag::{handler as set_enable_flag, SetEnableFlag};
use whirlpool::instructions::set_pool_creator_authority::{
    handler as set_pool_creator_authority, SetPoolCreatorAuthority,
};
use whirlpool::state::config::WhirlpoolsConfig;
use whirlpool::state::fee_tier::FeeTier;
use whirlpool::state::pubkey::Pubkey;
use whirlpool::state::whirlpool_registry::{PoolKey, WhirlpoolRegistry};

const NATIVE_MINT: [u8; 32] = [
    6, 155, 136, 87, 254, 171, 129, 132, 251, 104, 127, 99, 70, 24, 192, 53, 218, 196, 57, 220,
    26, 235, 59, 85, 152, 160, 240, 0, 0, 0, 0, 1,
];

fn key(b: u8) -> Pubkey {
    Pubkey::new_from_array([b; 32])
}

fn mint_data(decimals: u8) -> Vec<u8> {
    let mut d = vec![0u8; 82];
    d[44] = decimals;
    d[45] = 1;
    d
}

fn accounts(mint_a: Pubkey, mint_b: Pubkey) -> InitializePool {
    InitializePool {
        whirlpools_config_key: key(200),
        whirlpools_config: WhirlpoolsConfig { pool_creator_authority: key(100) },
        token_mint_a: mint_a,
        token_mint_a_data: mint_data(6),
        token_mint_b: mint_b,
        pool_creator: key(100),
        token_vault_a: key(150),
        token_vault_b: key(151),
        fee_tier: FeeTier { whirlpools_config: key(200), tick_spacing: 64, default_fee_rate: 3000 },
    }
}

#[test]
fn ordered_mints_create_a_pool() {
    let mut registry = WhirlpoolRegistry::new();
    let pool = initialize_pool(&accounts(key(1), key(2)), &mut registry, 255, 64, 1u128 << 64)
        .unwrap();
    assert_eq!(pool.token_mint_a, key(1));
    assert_eq!(pool.token_mint_b, key(2));
    assert_eq!(pool.token_vault_a, key(150));
    assert_eq!(pool.token_vault_b, key(151));
    assert_eq!(pool.fee_rate, 3000);
    assert_eq!(pool.tick_spacing, 64);
    assert_eq!(pool.sqrt_price, 1u128 << 64);
    assert_eq!(pool.liquidity, 0);
    assert!(pool.is_enabled);
    assert_eq!(registry.len(), 1);
}

#[test]
fn equal_mints_are_rejected() {
    let mut registry = WhirlpoolRegistry::new();
    let r = initialize_pool(&accounts(key(3), key(3)), &mut registry, 255, 64, 1);
    assert_eq!(r, Err(ErrorCode::InvalidTokenMintOrder));
    let native = Pubkey::new_from_array(NATIVE_MINT);
    let r = initialize_pool(&accounts(native, native), &mut registry, 255, 64, 1);
    assert_eq!(r, Err(ErrorCode::InvalidTokenMintOrder));
    assert_eq!(registry.len(), 0);
}

#[test]
fn unordered_mints_are_rejected() {
    let mut registry = WhirlpoolRegistry::new();
    let r = initialize_pool(&accounts(key(2), key(1)), &mut registry, 255, 64, 1);
    assert_eq!(r, Err(ErrorCode::InvalidTokenMintOrder));
    let mut high_last = [1u8; 32];
    high_last[31] = 2;
    let r = initialize_pool(
        &accounts(Pubkey::new_from_array(high_last), key(1)),
        &mut registry,
        255,
        64,
        1,
    );
    assert_eq!(r, Err(ErrorCode::InvalidTokenMintOrder));
    assert_eq!(registry.len(), 0);
}

#[test]
fn native_mint_is_exempt_from_order() {
    let mut registry = WhirlpoolRegistry::new();
    let native = Pubkey::new_from_array(NATIVE_MINT);
    let mut acc = accounts(native, key(1));
    acc.token_mint_a_data = Vec::new();
    let pool = initialize_pool(&acc, &mut registry, 255, 64, 1).unwrap();
    assert_eq!(pool.token_mint_a, native);
    // The same order with a mint that is not native fails.
    let mut other = NATIVE_MINT;
    other[31] = 2;
    let r = initialize_pool(
        &accounts(Pubkey::new_from_array(other), key(1)),
        &mut registry,
        255,
        64,
        1,
    );
    assert_eq!(r, Err(ErrorCode::InvalidTokenMintOrder));
}

#[test]
fn invalid_mint_data_is_rejected() {
    let mut registry = WhirlpoolRegistry::new();
    let mut acc = accounts(key(1), key(2));
    acc.token_mint_a_data = vec![0u8; 82];
    assert_eq!(
        initialize_pool(&acc, &mut registry, 255, 64, 1),
        Err(ErrorCode::InvalidMintAccount)
    );
    acc.token_mint_a_data = mint_data(6);
    acc.token_mint_a_data.push(0);
    assert_eq!(
        initialize_pool(&acc, &mut registry, 255, 64, 1),
        Err(ErrorCode::InvalidMintAccount)
    );
    acc.token_mint_a_data = mint_data(6);
    acc.token_mint_a_data[0] = 2;
    assert_eq!(
        initialize_pool(&acc, &mut registry, 255, 64, 1),
        Err(ErrorCode::InvalidMintAccount)
    );
}

#[test]
fn wrong_creator_is_rejected() {
    let mut registry = WhirlpoolRegistry::new();
    let mut acc = accounts(key(1), key(2));
    acc.pool_creator = key(101);
    assert_eq!(
        initialize_pool(&acc, &mut registry, 255, 64, 1),
        Err(ErrorCode::AuthorizationFailure)
    );
}

#[test]
fn fee_tier_must_match() {
    let mut registry = WhirlpoolRegistry::new();
    let acc = accounts(key(1), key(2));
    assert_eq!(initialize_pool(&acc, &mut registry, 255, 128, 1), Err(ErrorCode::AccountMismatch));
    let mut acc = accounts(key(1), key(2));
    acc.fee_tier.whirlpools_config = key(201);
    assert_eq!(initialize_pool(&acc, &mut registry, 255, 64, 1), Err(ErrorCode::AccountMismatch));
}

#[test]
fn duplicate_pool_is_rejected() {
    let mut registry = WhirlpoolRegistry::new();
    let acc = accounts(key(1), key(2));
    assert!(initialize_pool(&acc, &mut registry, 255, 64, 1).is_ok());
    assert_eq!(
        initialize_pool(&acc, &mut registry, 254, 64, 7),
        Err(ErrorCode::PoolAlreadyInitialized)
    );
    assert_eq!(registry.len(), 1);
    let stored = registry
        .get(&PoolKey {
            whirlpools_config: key(200),
            token_mint_a: key(1),
            token_mint_b: key(2),
            tick_spacing: 64,
        })
        .unwrap();
    assert_eq!(stored.whirlpool_bump, 255);
    // Another tick spacing is another pool.
    let mut acc = accounts(key(1), key(2));
    acc.fee_tier.tick_spacing = 8;
    assert!(initialize_pool(&acc, &mut registry, 255, 8, 1).is_ok());
    assert_eq!(registry.len(), 2);
}

fn enable_accounts() -> SetEnableFlag {
    let mut registry = WhirlpoolRegistry::new();
    let pool = initialize_pool(&accounts(key(1), key(2)), &mut registry, 255, 64, 1).unwrap();
    SetEnableFlag {
        whirlpools_config_key: key(200),
        whirlpools_config: WhirlpoolsConfig { pool_creator_authority: key(100) },
        whirlpool: pool,
        pool_creator_authority: key(100),
    }
}

#[test]
fn enable_flag_is_set_by_the_authority() {
    let mut acc = enable_accounts();
    let before = acc.whirlpool;
    assert_eq!(set_enable_flag(&mut acc, false), Ok(()));
    assert!(!acc.whirlpool.is_enabled);
    assert_eq!(acc.whirlpool.sqrt_price, before.sqrt_price);
    assert_eq!(set_enable_flag(&mut acc, true), Ok(()));
    assert_eq!(acc.whirlpool, before);
}

#[test]
fn enable_flag_rejects_others() {
    let mut acc = enable_accounts();
    acc.pool_creator_authority = key(99);
    assert_eq!(set_enable_flag(&mut acc, false), Err(ErrorCode::AuthorizationFailure));
    assert!(acc.whirlpool.is_enabled);
    let mut acc = enable_accounts();
    acc.whirlpools_config_key = key(9);
    assert_eq!(set_enable_flag(&mut acc, false), Err(ErrorCode::AccountMismatch));
    assert!(acc.whirlpool.is_enabled);
}

#[test]
fn pool_creator_authority_is_handed_over() {
    let mut acc = SetPoolCreatorAuthority {
        whirlpools_config: WhirlpoolsConfig { pool_creator_authority: key(100) },
        pool_creator_authority: key(100),
        new_pool_creator_authority: key(42),
    };
    assert_eq!(set_pool_creator_authority(&mut acc), Ok(()));
    assert_eq!(acc.whirlpools_config.pool_creator_authority, key(42));
    // The former authority can no longer act.
    acc.new_pool_creator_authority = key(43);
    assert_eq!(set_pool_creator_authority(&mut acc), Err(ErrorCode::AuthorizationFailure));
    assert_eq!(acc.whirlpools_config.pool_creator_authority, key(42));
}

#[test]
fn keys_compare_lexicographically() {
    let mut a = [0u8; 32];
    let mut b = [0u8; 32];
    a[0] = 1;
    b[1] = 255;
    assert_eq!(Pubkey::new_from_array(a).cmp_key(&Pubkey::new_from_array(b)), Ordering::Greater);
    assert_eq!(Pubkey::new_from_array(b).cmp_key(&Pubkey::new_from_array(a)), Ordering::Less);
    assert_eq!(key(7).cmp_key(&key(7)), Ordering::Equal);
    assert!(key(7).same_key(&key(7)));
    assert!(!key(7).same_key(&key(8)));
}
