//! The mark price: the oracle index skewed by the virtual AMM's reserve ratio.
use vstd::prelude::*;
use crate::errors::PerpsError;
use crate::numeric::{fits_i128, i128_as_u128, i128_div, i128_div_defined, tdiv, u128_as_i128, wrap_i128, wrap_u128};
use crate::oracle::{oracle_age_computable, oracle_age_defined, oracle_fresh, read_oracle_fp};
use crate::state::{Market, OraclePrice, FP};

verus! {

/// `amm_quote_reserve_fp * FP / amm_base_reserve_fp`, in signed 128-bit arithmetic.
pub open spec fn reserve_ratio_fp(m: Market) -> int {
    tdiv(wrap_i128(m.amm_quote_reserve_fp as int) * FP, wrap_i128(m.amm_base_reserve_fp as int))
}

/// `skew_k_bps * (ratio - FP) / 10_000`: the relative premium of mark over index, scaled by `FP`.
pub open spec fn skew_term_fp(m: Market) -> int {
    tdiv(m.skew_k_bps * (reserve_ratio_fp(m) - FP), 10_000)
}

/// `index + index * skew / FP`, before conversion to unsigned.
pub open spec fn signed_mark_fp(m: Market, index_fp: u128) -> int {
    let ix = wrap_i128(index_fp as int);
    ix + tdiv(ix * skew_term_fp(m), FP as int)
}

/// The mark price for a given index price: the signed mark reinterpreted as
/// `u128`, and never below 1.
pub open spec fn mark_price_of(m: Market, index_fp: u128) -> int {
    let p = wrap_u128(signed_mark_fp(m, index_fp));
    if p >= 1 { p } else { 1 }
}

/// Whether every step of the mark-price computation stays within `i128`
/// and divides by a nonzero value.
pub open spec fn mark_price_defined(m: Market, index_fp: u128) -> bool {
    let scaled_quote = wrap_i128(m.amm_quote_reserve_fp as int) * FP;
    let base = wrap_i128(m.amm_base_reserve_fp as int);
    let ratio = reserve_ratio_fp(m);
    let ix = wrap_i128(index_fp as int);
    &&& fits_i128(scaled_quote)
    &&& i128_div_defined(scaled_quote, base)
    &&& fits_i128(ratio - FP)
    &&& fits_i128(m.skew_k_bps * (ratio - FP))
    &&& fits_i128(ix * skew_term_fp(m))
    &&& fits_i128(signed_mark_fp(m, index_fp))
}

/// Whether `current_mark_price_fp` completes at time `now` without a panic.
pub open spec fn current_mark_price_defined(m: Market, oracle: OraclePrice, now: i64) -> bool {
    &&& oracle_age_defined(oracle, now)
    &&& oracle_fresh(oracle, now) ==> mark_price_defined(m, oracle.price_fp)
}

/// The mark price from an index price, or `None` where the computation would overflow.
fn mark_price_checked(m: &Market, index_fp: u128) -> (r: Option<u128>)
    ensures
        mark_price_defined(*m, index_fp) ==> r == Some(mark_price_of(*m, index_fp) as u128),
        !mark_price_defined(*m, index_fp) ==> r is None,
{
    let k = m.skew_k_bps as i128;
    let quote = u128_as_i128(m.amm_quote_reserve_fp);
    let base = u128_as_i128(m.amm_base_reserve_fp);
    let scaled_quote = match quote.checked_mul(1_000_000i128) {
        Some(v) => v,
        None => return None,
    };
    if base == 0 || (scaled_quote == i128::MIN && base == -1) {
        return None;
    }
    let ratio_fp = i128_div(scaled_quote, base);
    let excess = match ratio_fp.checked_sub(1_000_000i128) {
        Some(v) => v,
        None => return None,
    };
    let weighted = match k.checked_mul(excess) {
        Some(v) => v,
        None => return None,
    };
    let skew_term_fp = i128_div(weighted, 10_000i128);
    let index = u128_as_i128(index_fp);
    let index_skew = match index.checked_mul(skew_term_fp) {
        Some(v) => v,
        None => return None,
    };
    let mark_signed = match index.checked_add(i128_div(index_skew, 1_000_000i128)) {
        Some(v) => v,
        None => return None,
    };
    let mark_fp = i128_as_u128(mark_signed);
    Some(if mark_fp >= 1 { mark_fp } else { 1 })
}

/// The current mark price: the fresh oracle index skewed by the AMM reserves;
/// `BadOracle` when the oracle is stale.
pub fn current_mark_price_fp(m: &Market, oracle: &OraclePrice, now: i64) -> (r: Result<u128, PerpsError>)
    requires
        current_mark_price_defined(*m, *oracle, now),
    ensures
        oracle_fresh(*oracle, now) ==> r == Ok::<u128, PerpsError>(mark_price_of(*m, oracle.price_fp) as u128),
        !oracle_fresh(*oracle, now) ==> r == Err::<u128, PerpsError>(PerpsError::BadOracle),
        r matches Ok(p) ==> p >= 1,
{
    let index_fp = read_oracle_fp(oracle, now)?;
    match mark_price_checked(m, index_fp) {
        Some(p) => Ok(p),
        None => {
            assert(false);
            Ok(1)
        },
    }
}

/// Whether `current_mark_price_fp` can be called at time `now` without an arithmetic panic.
pub fn current_mark_price_computable(m: &Market, oracle: &OraclePrice, now: i64) -> (r: bool)
    ensures
        r == current_mark_price_defined(*m, *oracle, now),
{
    if !oracle_age_computable(oracle, now) {
        return false;
    }
    match read_oracle_fp(oracle, now) {
        Ok(index_fp) => mark_price_checked(m, index_fp).is_some(),
        Err(_) => true,
    }
}

} // verus!
