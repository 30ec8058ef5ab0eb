//! Reading the oracle's index price.
use vstd::prelude::*;
use crate::errors::PerpsError;
use crate::numeric::{fits_i64};
use crate::state::OraclePrice;

verus! {

/// Age, in seconds, beyond which an oracle price is refused.
pub const MAX_ORACLE_AGE_SECS: i64 = 120;

/// Whether computing the oracle's age at time `now` stays within `i64`.
pub open spec fn oracle_age_defined(oracle: OraclePrice, now: i64) -> bool {
    fits_i64(now - oracle.last_updated_ts)
}

/// An oracle price is fresh when it was updated less than 120 seconds before `now`.
pub open spec fn oracle_fresh(oracle: OraclePrice, now: i64) -> bool {
    now - oracle.last_updated_ts < MAX_ORACLE_AGE_SECS
}

/// The index price at time `now`: the oracle's price when fresh, `BadOracle` otherwise.
pub fn read_oracle_fp(oracle: &OraclePrice, now: i64) -> (r: Result<u128, PerpsError>)
    requires
        oracle_age_defined(*oracle, now),
    ensures
        oracle_fresh(*oracle, now) ==> r == Ok::<u128, PerpsError>(oracle.price_fp),
        !oracle_fresh(*oracle, now) ==> r == Err::<u128, PerpsError>(PerpsError::BadOracle),
{
    if now - oracle.last_updated_ts < MAX_ORACLE_AGE_SECS {
        Ok(oracle.price_fp)
    } else {
        Err(PerpsError::BadOracle)
    }
}

/// Whether `read_oracle_fp` can be called at time `now` (the oracle's age fits in `i64`).
pub fn oracle_age_computable(oracle: &OraclePrice, now: i64) -> (r: bool)
    ensures
        r == oracle_age_defined(*oracle, now),
{
    now.checked_sub(oracle.last_updated_ts).is_some()
}

} // verus!
