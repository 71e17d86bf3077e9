use crate::state::pubkey::Pubkey;
use vstd::prelude::*;

verus! {

/// The default fee rate of the pools of one tick spacing in one config.
#[derive(Clone, Copy, Debug, PartialEq, Eq)]
pub struct FeeTier {
    pub whirlpools_config: Pubkey,
    pub tick_spacing: u16,
    /// In hundredths of a basis point.
    pub default_fee_rate: u16,
}

} // verus!
