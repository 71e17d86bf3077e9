use crate::errors::ErrorCode;
use crate::state::config::WhirlpoolsConfig;
use crate::state::pubkey::Pubkey;
use crate::state::whirlpool::Whirlpool;
use vstd::prelude::*;

verus! {

/// The accounts that enabling or disabling a pool reads and writes.
pub struct SetEnableFlag {
    /// The address of the config account that is passed.
    pub whirlpools_config_key: Pubkey,
    pub whirlpools_config: WhirlpoolsConfig,
    pub whirlpool: Whirlpool,
    /// The signer of the request.
    pub pool_creator_authority: Pubkey,
}

/// Enables or disables swaps on a pool. The pool must belong to the config
/// passed, else `AccountMismatch`, and the signer must be that config's pool
/// creator authority, else `AuthorizationFailure`. Only the flag changes.
pub fn handler(accounts: &mut SetEnableFlag, is_enabled: bool) -> (r: Result<(), ErrorCode>)
    ensures
        r == (if old(accounts).whirlpool.whirlpools_config.bytes@
            != old(accounts).whirlpools_config_key.bytes@ {
            Err::<(), ErrorCode>(ErrorCode::AccountMismatch)
        } else if old(accounts).pool_creator_authority.bytes@
            != old(accounts).whirlpools_config.pool_creator_authority.bytes@ {
            Err(ErrorCode::AuthorizationFailure)
        } else {
            Ok(())
        }),
        r is Ok ==> final(accounts).whirlpool == (Whirlpool {
            is_enabled,
            ..old(accounts).whirlpool
        }),
        r is Err ==> final(accounts).whirlpool == old(accounts).whirlpool,
        final(accounts).whirlpools_config == old(accounts).whirlpools_config,
        final(accounts).whirlpools_config_key == old(accounts).whirlpools_config_key,
        final(accounts).pool_creator_authority == old(accounts).pool_creator_authority,
{
    if !accounts.whirlpool.whirlpools_config.same_key(&accounts.whirlpools_config_key) {
        return Err(ErrorCode::AccountMismatch);
    }
    if !accounts.pool_creator_authority.same_key(&accounts.whirlpools_config.pool_creator_authority) {
        return Err(ErrorCode::AuthorizationFailure);
    }
    accounts.whirlpool.set_enable_flag(is_enabled);
    Ok(())
}

} // verus!
