use crate::state::pubkey::Pubkey;
use vstd::prelude::*;

verus! {

/// The administrative domain that pools are created under.
#[derive(Clone, Copy, Debug, PartialEq, Eq)]
pub struct WhirlpoolsConfig {
    /// The only signer that may create pools and administer them.
    pub pool_creator_authority: Pubkey,
}

impl WhirlpoolsConfig {
    /// Replaces the pool creator authority.
    pub fn update_pool_creator_authority(&mut self, pool_creator_authority: Pubkey)
        ensures
            final(self).pool_creator_authority == pool_creator_authority,
    {
        self.pool_creator_authority = pool_creator_authority;
    }
}

} // verus!
