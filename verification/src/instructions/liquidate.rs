//! Liquidation of under-margined positions.
use vstd::prelude::*;
use crate::errors::PerpsError;
use crate::events::Liquidated;
use crate::math::{current_mark_price_computable, current_mark_price_defined, current_mark_price_fp, mark_price_of};
use crate::numeric::{fits_i128, fits_u128, i128_div, tdiv, trunc_u64, u128_as_i128, u128_as_u64, wrap_i128};
use crate::oracle::oracle_fresh;
use crate::state::{Config, Market, OraclePrice, UserPosition, FP};

verus! {

/// What liquidating a position does: the collateral seized for the fee
/// destination, the rest returned to the user, and the event to emit.
#[derive(Debug, Clone, Copy, PartialEq, Eq)]
pub struct Liquidation {
    pub seized: u64,
    pub returned: u64,
    pub event: Liquidated,
}

/// `|base_size| * mark / FP`: the position's notional at the mark price.
pub open spec fn liq_notional_fp(p: UserPosition, mark_fp: int) -> int {
    let abs_base: int = if p.base_size < 0 { -p.base_size } else { p.base_size as int };
    (abs_base * mark_fp) / (FP as int)
}

/// Unrealised profit (or loss) at the mark price, scaled by `FP`.
pub open spec fn liq_pnl_fp(p: UserPosition, mark_fp: int) -> int {
    let mark = wrap_i128(mark_fp);
    let entry = wrap_i128(p.entry_price_fp as int);
    if p.base_size >= 0 {
        tdiv((mark - entry) * p.base_size, FP as int)
    } else {
        tdiv((entry - mark) * (-p.base_size), FP as int)
    }
}

/// Margin plus unrealised pnl, scaled by `FP`.
pub open spec fn liq_equity_fp(p: UserPosition, mark_fp: int) -> int {
    p.margin_deposited * FP + liq_pnl_fp(p, mark_fp)
}

/// `notional * maintenance_margin_bps / 10_000`: the maintenance requirement, scaled by `FP`.
pub open spec fn liq_maintenance_fp(market: Market, p: UserPosition, mark_fp: int) -> int {
    (liq_notional_fp(p, mark_fp) * market.maintenance_margin_bps) / 10_000
}

/// A position is liquidatable when its equity is below the maintenance requirement
/// (the requirement taken as `i128`).
pub open spec fn is_liquidatable(market: Market, p: UserPosition, mark_fp: int) -> bool {
    liq_equity_fp(p, mark_fp) < wrap_i128(liq_maintenance_fp(market, p, mark_fp))
}

/// `notional * liq_fee_bps / 10_000`, truncated to `u64`: the liquidation fee.
pub open spec fn liq_fee(config: Config, p: UserPosition, mark_fp: int) -> int {
    trunc_u64((liq_notional_fp(p, mark_fp) * config.liq_fee_bps) / 10_000)
}

/// Collateral taken for the fee destination: the fee, capped by the margin.
pub open spec fn liq_seized(config: Config, p: UserPosition, mark_fp: int) -> int {
    let fee = liq_fee(config, p, mark_fp);
    if p.margin_deposited <= fee { p.margin_deposited as int } else { fee }
}

/// Whether every step of the liquidation arithmetic stays within its integer type.
pub open spec fn liquidation_arithmetic_defined(market: Market, config: Config, p: UserPosition, mark_fp: int) -> bool {
    let abs_base: int = if p.base_size < 0 { -p.base_size } else { p.base_size as int };
    let mark = wrap_i128(mark_fp);
    let entry = wrap_i128(p.entry_price_fp as int);
    let notional = liq_notional_fp(p, mark_fp);
    &&& p.base_size != i64::MIN
    &&& fits_u128(abs_base * mark_fp)
    &&& p.base_size >= 0 ==> fits_i128(mark - entry) && fits_i128((mark - entry) * p.base_size)
    &&& p.base_size < 0 ==> fits_i128(entry - mark) && fits_i128((entry - mark) * (-p.base_size))
    &&& fits_i128(liq_equity_fp(p, mark_fp))
    &&& fits_u128(notional * market.maintenance_margin_bps)
    &&& is_liquidatable(market, p, mark_fp) ==> fits_u128(notional * config.liq_fee_bps)
}

/// Whether `liquidate` completes without a panic.
pub open spec fn liquidate_defined(
    config: Config,
    market: Market,
    oracle: OraclePrice,
    p: UserPosition,
    now: i64,
) -> bool {
    &&& current_mark_price_defined(market, oracle, now)
    &&& oracle_fresh(oracle, now) ==> liquidation_arithmetic_defined(
        market,
        config,
        p,
        mark_price_of(market, oracle.price_fp),
    )
}

/// What `liquidate` returns: `None` for a healthy position.
pub open spec fn liquidate_result(
    config: Config,
    market: Market,
    oracle: OraclePrice,
    p: UserPosition,
    now: i64,
) -> Result<Option<Liquidation>, PerpsError> {
    if !oracle_fresh(oracle, now) {
        Err(PerpsError::BadOracle)
    } else {
        let mark = mark_price_of(market, oracle.price_fp);
        if !is_liquidatable(market, p, mark) {
            Ok(None)
        } else {
            let seized = liq_seized(config, p, mark);
            Ok(Some(Liquidation {
                seized: seized as u64,
                returned: (p.margin_deposited - seized) as u64,
                event: Liquidated { user: p.owner, market: p.market, seized_collateral: seized as u64 },
            }))
        }
    }
}

/// The position after a liquidation: size and margin zeroed, everything else kept.
pub open spec fn liquidated_position(p: UserPosition) -> UserPosition {
    UserPosition { base_size: 0, margin_deposited: 0, ..p }
}

/// The outcome of liquidating `p`, or `None` where the original arithmetic would panic.
fn liquidate_checked(
    config: &Config,
    market: &Market,
    oracle: &OraclePrice,
    p: &UserPosition,
    now: i64,
) -> (r: Option<Result<Option<Liquidation>, PerpsError>>)
    ensures
        liquidate_defined(*config, *market, *oracle, *p, now) ==> r == Some(
            liquidate_result(*config, *market, *oracle, *p, now),
        ),
        !liquidate_defined(*config, *market, *oracle, *p, now) ==> r is None,
{
    if !current_mark_price_computable(market, oracle, now) {
        return None;
    }
    let mark_fp = match current_mark_price_fp(market, oracle, now) {
        Ok(v) => v,
        Err(e) => return Some(Err(e)),
    };
    if p.base_size == i64::MIN {
        return None;
    }
    let abs_base: u128 = if p.base_size < 0 { (-p.base_size) as u128 } else { p.base_size as u128 };
    let notional_fp: u128 = match abs_base.checked_mul(mark_fp) {
        Some(v) => v / FP,
        None => return None,
    };
    let mark = u128_as_i128(mark_fp);
    let entry = u128_as_i128(p.entry_price_fp);
    let signed_base = p.base_size as i128;
    let pnl_fp: i128 = if p.base_size >= 0 {
        let gain = match mark.checked_sub(entry) {
            Some(v) => v,
            None => return None,
        };
        match gain.checked_mul(signed_base) {
            Some(v) => i128_div(v, 1_000_000i128),
            None => return None,
        }
    } else {
        let gain = match entry.checked_sub(mark) {
            Some(v) => v,
            None => return None,
        };
        match gain.checked_mul(-signed_base) {
            Some(v) => i128_div(v, 1_000_000i128),
            None => return None,
        }
    };
    let equity_fp = match (p.margin_deposited as i128 * 1_000_000i128).checked_add(pnl_fp) {
        Some(v) => v,
        None => return None,
    };
    let mm_req_fp: u128 = match notional_fp.checked_mul(market.maintenance_margin_bps as u128) {
        Some(v) => v / 10_000u128,
        None => return None,
    };
    if equity_fp < u128_as_i128(mm_req_fp) {
        let liq_fee = match notional_fp.checked_mul(config.liq_fee_bps as u128) {
            Some(v) => u128_as_u64(v / 10_000u128),
            None => return None,
        };
        let seize = p.margin_deposited.min(liq_fee);
        let remaining = p.margin_deposited.saturating_sub(seize);
        let event = Liquidated { user: p.owner, market: p.market, seized_collateral: seize };
        Some(Ok(Some(Liquidation { seized: seize, returned: remaining, event })))
    } else {
        Some(Ok(None))
    }
}

/// Liquidates a position whose equity has fallen below the maintenance requirement.
///
/// The liquidation fee (capped by the margin) is seized for the fee
/// destination, the remaining margin is returned to the user, and the
/// position's size and margin are zeroed. A healthy position is left
/// unchanged and `Ok(None)` is returned; with a stale oracle it fails with
/// `BadOracle`.
pub fn liquidate(
    config: &Config,
    market: &Market,
    oracle: &OraclePrice,
    position: &mut UserPosition,
    now: i64,
) -> (r: Result<Option<Liquidation>, PerpsError>)
    requires
        liquidate_defined(*config, *market, *oracle, *old(position), now),
    ensures
        r == liquidate_result(*config, *market, *oracle, *old(position), now),
        r matches Ok(Some(_)) ==> *final(position) == liquidated_position(*old(position)),
        !(r matches Ok(Some(_))) ==> *final(position) == *old(position),
{
    match liquidate_checked(config, market, oracle, position, now) {
        Some(Ok(Some(liquidation))) => {
            position.base_size = 0;
            position.margin_deposited = 0;
            Ok(Some(liquidation))
        },
        Some(other) => other,
        None => {
            assert(false);
            Err(PerpsError::MathOverflow)
        },
    }
}

/// Whether `liquidate` can be called without an arithmetic panic.
pub fn liquidate_computable(
    config: &Config,
    market: &Market,
    oracle: &OraclePrice,
    position: &UserPosition,
    now: i64,
) -> (r: bool)
    ensures
        r == liquidate_defined(*config, *market, *oracle, *position, now),
{
    liquidate_checked(config, market, oracle, position, now).is_some()
}

} // verus!
