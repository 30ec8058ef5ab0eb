//! Periodic funding-rate settlement.
use vstd::prelude::*;
use crate::errors::PerpsError;
use crate::math::{current_mark_price_computable, current_mark_price_defined, current_mark_price_fp, mark_price_of};
use crate::numeric::{fits_i128, fits_i64, i128_div, i128_div_defined, tdiv, u128_as_i128, wrap_i128};
use crate::oracle::{oracle_fresh, read_oracle_fp};
use crate::state::{Market, OraclePrice, FP};

verus! {

/// Minimum number of seconds between two funding settlements.
pub const FUNDING_INTERVAL_SECS: i64 = 3600;

/// Funding is due once an hour has passed since the last settlement.
pub open spec fn funding_due(m: Market, now: i64) -> bool {
    now - m.last_funding_ts >= FUNDING_INTERVAL_SECS
}

/// `(mark - index) * FP / index`: the premium of mark over index, scaled by `FP`.
pub open spec fn funding_premium_fp(m: Market, index_fp: u128) -> int {
    let mark = wrap_i128(mark_price_of(m, index_fp));
    let index = wrap_i128(index_fp as int);
    tdiv((mark - index) * FP, index)
}

/// The market after a due settlement with a fresh oracle: the premium becomes
/// the funding rate and the funding clock moves to `now`.
pub open spec fn settled_market(m: Market, oracle: OraclePrice, now: i64) -> Market {
    Market { funding_rate_fp: funding_premium_fp(m, oracle.price_fp) as i128, last_funding_ts: now, ..m }
}

/// Whether `settle_funding` completes at time `now` without a panic.
pub open spec fn settle_funding_defined(m: Market, oracle: OraclePrice, now: i64) -> bool {
    let mark = wrap_i128(mark_price_of(m, oracle.price_fp));
    let index = wrap_i128(oracle.price_fp as int);
    &&& fits_i64(now - m.last_funding_ts)
    &&& funding_due(m, now) ==> {
        &&& current_mark_price_defined(m, oracle, now)
        &&& oracle_fresh(oracle, now) ==> {
            &&& fits_i128(mark - index)
            &&& fits_i128((mark - index) * FP)
            &&& i128_div_defined((mark - index) * FP, index)
        }
    }
}

/// Settles funding for a market: once an hour, records the premium of the
/// mark price over the oracle index as the funding rate.
/// Before the hour has passed, does nothing; with a stale oracle, fails
/// with `BadOracle` and leaves the market unchanged.
pub fn settle_funding(market: &mut Market, oracle: &OraclePrice, now: i64) -> (r: Result<(), PerpsError>)
    requires
        settle_funding_defined(*old(market), *oracle, now),
    ensures
        !funding_due(*old(market), now) ==> r is Ok && *final(market) == *old(market),
        funding_due(*old(market), now) && !oracle_fresh(*oracle, now) ==> r
            == Err::<(), PerpsError>(PerpsError::BadOracle) && *final(market) == *old(market),
        funding_due(*old(market), now) && oracle_fresh(*oracle, now) ==> {
            &&& r is Ok
            &&& *final(market) == settled_market(*old(market), *oracle, now)
        },
{
    if now - market.last_funding_ts < FUNDING_INTERVAL_SECS {
        return Ok(());
    }
    let index_fp = read_oracle_fp(oracle, now)?;
    let mark_fp = current_mark_price_fp(market, oracle, now)?;
    let index = u128_as_i128(index_fp);
    let premium_fp = i128_div((u128_as_i128(mark_fp) - index) * 1_000_000i128, index);
    market.funding_rate_fp = premium_fp;
    market.last_funding_ts = now;
    Ok(())
}

/// Whether `settle_funding` can be called at time `now` without an arithmetic panic.
pub fn settle_funding_computable(market: &Market, oracle: &OraclePrice, now: i64) -> (r: bool)
    ensures
        r == settle_funding_defined(*market, *oracle, now),
{
    let age = match now.checked_sub(market.last_funding_ts) {
        Some(a) => a,
        None => return false,
    };
    if age < FUNDING_INTERVAL_SECS {
        return true;
    }
    if !current_mark_price_computable(market, oracle, now) {
        return false;
    }
    match current_mark_price_fp(market, oracle, now) {
        Err(_) => true,
        Ok(mark_fp) => {
            let index = u128_as_i128(oracle.price_fp);
            match u128_as_i128(mark_fp).checked_sub(index) {
                None => false,
                Some(diff) => match diff.checked_mul(1_000_000i128) {
                    None => false,
                    Some(num) => index != 0 && !(num == i128::MIN && index == -1),
                },
            }
        },
    }
}

} // verus!
