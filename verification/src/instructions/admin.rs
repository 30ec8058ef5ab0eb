//! Configuration and administration.
use vstd::prelude::*;
use crate::state::{Config, Market, Pubkey};

verus! {

/// The configuration a fresh program starts with: the given accounts and
/// fee rates, not paused.
pub fn initialize_config(
    admin: Pubkey,
    quote_mint: Pubkey,
    fee_destination: Pubkey,
    insurance_vault: Pubkey,
    creator_reward_mint: Pubkey,
    fee_bps: u16,
    liq_fee_bps: u16,
    creator_reward_bps: u16,
) -> (cfg: Config)
    ensures
        cfg == (Config {
            admin,
            quote_mint,
            fee_bps,
            liq_fee_bps,
            fee_destination,
            insurance_vault,
            creator_reward_mint,
            creator_reward_bps,
            paused: false,
        }),
{
    Config {
        admin,
        quote_mint,
        fee_bps,
        liq_fee_bps,
        fee_destination,
        insurance_vault,
        creator_reward_mint,
        creator_reward_bps,
        paused: false,
    }
}

/// Points fees at a new destination account; nothing else changes.
pub fn set_fee_destination(config: &mut Config, new_fee_dest: Pubkey)
    ensures
        *final(config) == (Config { fee_destination: new_fee_dest, ..*old(config) }),
{
    config.fee_destination = new_fee_dest;
}

/// Sets a market's maximum position size; nothing else changes.
pub fn edit_max_position(market: &mut Market, new_max_base: u64)
    ensures
        *final(market) == (Market { max_position_base: new_max_base, ..*old(market) }),
{
    market.max_position_base = new_max_base;
}

/// Pauses or unpauses trading; nothing else changes.
pub fn pause(config: &mut Config, paused: bool)
    ensures
        *final(config) == (Config { paused, ..*old(config) }),
{
    config.paused = paused;
}

} // verus!
