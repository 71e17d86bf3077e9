use crate::errors::ErrorCode;
use crate::manager::swap_manager::PostSwapUpdate;
use crate::state::pubkey::Pubkey;
use vstd::prelude::*;

verus! {

/// One pool: an ordered pair of mints at a fixed tick spacing.
#[derive(Clone, Copy, Debug, PartialEq, Eq)]
pub struct Whirlpool {
    pub whirlpools_config: Pubkey,
    pub whirlpool_bump: u8,
    pub tick_spacing: u16,
    /// In hundredths of a basis point.
    pub fee_rate: u16,
    pub liquidity: u128,
    /// Square root of the price of A in B, as a Q64.64 fixed-point number.
    pub sqrt_price: u128,
    pub protocol_fee_owed_a: u64,
    pub protocol_fee_owed_b: u64,
    pub token_mint_a: Pubkey,
    pub token_vault_a: Pubkey,
    pub fee_growth_global_a: u128,
    pub token_mint_b: Pubkey,
    pub token_vault_b: Pubkey,
    pub fee_growth_global_b: u128,
    pub is_enabled: bool,
}

impl Whirlpool {
    /// A new, enabled pool with no liquidity and no fees collected.
    pub fn new(
        whirlpools_config: Pubkey,
        whirlpool_bump: u8,
        tick_spacing: u16,
        sqrt_price: u128,
        default_fee_rate: u16,
        token_mint_a: Pubkey,
        token_vault_a: Pubkey,
        token_mint_b: Pubkey,
        token_vault_b: Pubkey,
    ) -> (r: Whirlpool)
        ensures
            r == (Whirlpool {
                whirlpools_config,
                whirlpool_bump,
                tick_spacing,
                fee_rate: default_fee_rate,
                liquidity: 0,
                sqrt_price,
                protocol_fee_owed_a: 0,
                protocol_fee_owed_b: 0,
                token_mint_a,
                token_vault_a,
                fee_growth_global_a: 0,
                token_mint_b,
                token_vault_b,
                fee_growth_global_b: 0,
                is_enabled: true,
            }),
    {
        Whirlpool {
            whirlpools_config,
            whirlpool_bump,
            tick_spacing,
            fee_rate: default_fee_rate,
            liquidity: 0,
            sqrt_price,
            protocol_fee_owed_a: 0,
            protocol_fee_owed_b: 0,
            token_mint_a,
            token_vault_a,
            fee_growth_global_a: 0,
            token_mint_b,
            token_vault_b,
            fee_growth_global_b: 0,
            is_enabled: true,
        }
    }

    /// Sets whether swaps on the pool are allowed.
    pub fn set_enable_flag(&mut self, is_enabled: bool)
        ensures
            *final(self) == (Whirlpool { is_enabled, ..*old(self) }),
    {
        self.is_enabled = is_enabled;
    }

    /// Fails `PoolDisabled` unless the pool is enabled.
    pub fn require_enabled(&self) -> (r: Result<(), ErrorCode>)
        ensures
            r == (if self.is_enabled {
                Ok::<(), ErrorCode>(())
            } else {
                Err(ErrorCode::PoolDisabled)
            }),
    {
        if self.is_enabled {
            Ok(())
        } else {
            Err(ErrorCode::PoolDisabled)
        }
    }

    /// Applies a computed swap to the pool's state. The fee growth and the
    /// protocol fee that change are those of the token the fee is charged in:
    /// the input token, A when the swap runs from A to B.
    pub fn update_after_swap(&mut self, update: &PostSwapUpdate, a_to_b: bool)
        ensures
            *final(self) == after_swap(*old(self), *update, a_to_b),
    {
        self.liquidity = update.next_liquidity;
        self.sqrt_price = update.next_sqrt_price;
        if a_to_b {
            self.fee_growth_global_a = update.next_fee_growth_global;
            self.protocol_fee_owed_a = update.next_protocol_fee;
        } else {
            self.fee_growth_global_b = update.next_fee_growth_global;
            self.protocol_fee_owed_b = update.next_protocol_fee;
        }
    }
}

/// The pool after a swap's update is applied to it.
pub open spec fn after_swap(pool: Whirlpool, update: PostSwapUpdate, a_to_b: bool) -> Whirlpool {
    if a_to_b {
        Whirlpool {
            liquidity: update.next_liquidity,
            sqrt_price: update.next_sqrt_price,
            fee_growth_global_a: update.next_fee_growth_global,
            protocol_fee_owed_a: update.next_protocol_fee,
            ..pool
        }
    } else {
        Whirlpool {
            liquidity: update.next_liquidity,
            sqrt_price: update.next_sqrt_price,
            fee_growth_global_b: update.next_fee_growth_global,
            protocol_fee_owed_b: update.next_protocol_fee,
            ..pool
        }
    }
}

} // verus!
