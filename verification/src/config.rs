//! The configuration of a governance: the one token whose holders vote.

use vstd::prelude::*;
use crate::pubkey::Pubkey;

verus! {

/// The configuration that every proposal is created and voted under.
#[derive(Clone, Copy, Debug, PartialEq, Eq)]
pub struct DaoConfig {
    /// The token whose holders may create proposals and vote.
    pub dao_token_mint: Pubkey,
}

/// The configuration that makes `dao_token_mint` the governance token.
pub fn initialize(dao_token_mint: Pubkey) -> (config: DaoConfig)
    ensures
        config.dao_token_mint == dao_token_mint,
{
    DaoConfig { dao_token_mint }
}

} // verus!
