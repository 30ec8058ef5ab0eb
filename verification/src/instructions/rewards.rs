//! Sweeping creator rewards to the fee destination.
use vstd::prelude::*;
use crate::errors::KeyCheckError;
use crate::state::{Config, Pubkey};

verus! {

/// `amount * creator_reward_bps / 10_000`: the share of `amount` that is swept.
pub open spec fn creator_reward_share(config: Config, amount: u64) -> int {
    (amount * config.creator_reward_bps) / 10_000
}

/// Whether `sweep_creator_rewards` completes without a panic: with a matching
/// mint, `amount * creator_reward_bps` must fit in `u64`.
pub open spec fn sweep_creator_rewards_defined(config: Config, creator_reward_mint: Pubkey, amount: u64) -> bool {
    config.creator_reward_mint.0@ == creator_reward_mint.0@ ==> amount * config.creator_reward_bps <= u64::MAX
}

/// The amount of creator rewards to transfer to the fee destination.
///
/// The given mint must be the configured creator-reward mint; otherwise the
/// key-equality requirement fails.
pub fn sweep_creator_rewards(config: &Config, creator_reward_mint: Pubkey, amount: u64) -> (r: Result<u64, KeyCheckError>)
    requires
        sweep_creator_rewards_defined(*config, creator_reward_mint, amount),
    ensures
        config.creator_reward_mint.0@ != creator_reward_mint.0@ ==> r == Err::<u64, KeyCheckError>(
            KeyCheckError::RequireKeysEqViolated,
        ),
        config.creator_reward_mint.0@ == creator_reward_mint.0@ ==> r == Ok::<u64, KeyCheckError>(
            creator_reward_share(*config, amount) as u64,
        ),
{
    if !config.creator_reward_mint.same_as(&creator_reward_mint) {
        return Err(KeyCheckError::RequireKeysEqViolated);
    }
    Ok(amount * (config.creator_reward_bps as u64) / 10_000)
}

/// Whether `sweep_creator_rewards` can be called without an arithmetic panic.
pub fn sweep_creator_rewards_computable(config: &Config, creator_reward_mint: Pubkey, amount: u64) -> (r: bool)
    ensures
        r == sweep_creator_rewards_defined(*config, creator_reward_mint, amount),
{
    !config.creator_reward_mint.same_as(&creator_reward_mint)
        || amount.checked_mul(config.creator_reward_bps as u64).is_some()
}

} // verus!
