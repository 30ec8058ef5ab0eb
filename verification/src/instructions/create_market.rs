//! Market creation.
use vstd::prelude::*;
use crate::errors::PerpsError;
use crate::state::{Market, Pubkey, MAX_LEVERAGE_X};

verus! {

/// Initialises a market account.
///
/// Refuses with `LeverageTooHigh`, leaving the account unchanged, when the
/// taker leverage cap exceeds the global maximum. Otherwise every field is
/// set from the arguments, the funding rate starts at zero and the funding
/// clock at `now`.
pub fn create_market(
    market: &mut Market,
    oracle: Pubkey,
    now: i64,
    symbol: [u8; 12],
    base_decimals: u8,
    skew_k_bps: u32,
    max_position_base: u64,
    maintenance_margin_bps: u16,
    taker_leverage_cap_x: u16,
    amm_base_reserve_fp: u128,
    amm_quote_reserve_fp: u128,
) -> (r: Result<(), PerpsError>)
    ensures
        taker_leverage_cap_x > MAX_LEVERAGE_X ==> r == Err::<(), PerpsError>(PerpsError::LeverageTooHigh)
            && *final(market) == *old(market),
        taker_leverage_cap_x <= MAX_LEVERAGE_X ==> r is Ok && *final(market) == (Market {
            symbol,
            base_decimals,
            oracle,
            amm_base_reserve_fp,
            amm_quote_reserve_fp,
            funding_rate_fp: 0,
            last_funding_ts: now,
            skew_k_bps,
            max_position_base,
            maintenance_margin_bps,
            taker_leverage_cap_x,
        }),
{
    if taker_leverage_cap_x as u64 > MAX_LEVERAGE_X {
        return Err(PerpsError::LeverageTooHigh);
    }
    market.symbol = symbol;
    market.base_decimals = base_decimals;
    market.oracle = oracle;
    market.skew_k_bps = skew_k_bps;
    market.max_position_base = max_position_base;
    market.maintenance_margin_bps = maintenance_margin_bps;
    market.taker_leverage_cap_x = taker_leverage_cap_x;
    market.amm_base_reserve_fp = amm_base_reserve_fp;
    market.amm_quote_reserve_fp = amm_quote_reserve_fp;
    market.funding_rate_fp = 0;
    market.last_funding_ts = now;
    Ok(())
}

} // verus!
