use crate::errors::ErrorCode;
use crate::state::config::WhirlpoolsConfig;
use crate::state::pubkey::Pubkey;
use vstd::prelude::*;

verus! {

/// The accounts that handing over the pool creator authority reads and writes.
pub struct SetPoolCreatorAuthority {
    pub whirlpools_config: WhirlpoolsConfig,
    /// The signer of the request.
    pub pool_creator_authority: Pubkey,
    pub new_pool_creator_authority: Pubkey,
}

/// Sets the pool creator authority. Only the current pool creator authority
/// may do so; any other signer fails `AuthorizationFailure` and nothing changes.
pub fn handler(accounts: &mut SetPoolCreatorAuthority) -> (r: Result<(), ErrorCode>)
    ensures
        r == (if old(accounts).pool_creator_authority.bytes@
            == old(accounts).whirlpools_config.pool_creator_authority.bytes@ {
            Ok::<(), ErrorCode>(())
        } else {
            Err(ErrorCode::AuthorizationFailure)
        }),
        r is Ok ==> final(accounts).whirlpools_config.pool_creator_authority == old(
            accounts,
        ).new_pool_creator_authority,
        r is Err ==> final(accounts).whirlpools_config == old(accounts).whirlpools_config,
        final(accounts).pool_creator_authority == old(accounts).pool_creator_authority,
        final(accounts).new_pool_creator_authority == old(accounts).new_pool_creator_authority,
{
    if !accounts.pool_creator_authority.same_key(&accounts.whirlpools_config.pool_creator_authority) {
        return Err(ErrorCode::AuthorizationFailure);
    }
    let new_authority = accounts.new_pool_creator_authority;
    accounts.whirlpools_config.update_pool_creator_authority(new_authority);
    Ok(())
}

} // verus!
