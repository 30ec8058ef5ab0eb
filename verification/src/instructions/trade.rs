//! Opening and closing positions.
use vstd::prelude::*;
use crate::errors::PerpsError;
use crate::events::{PositionClosed, PositionOpened};
use crate::math::{current_mark_price_computable, current_mark_price_defined, current_mark_price_fp, mark_price_of};
use crate::numeric::{fits_i128, fits_u128, i128_as_u128, i128_div, tdiv, trunc_u64, u128_as_i128, u128_as_u64, u64_as_i64, wrap_i128, wrap_i64, wrap_u128};
use crate::oracle::oracle_fresh;
use crate::state::{Config, Market, OraclePrice, Pubkey, UserPosition, FP, MAX_LEVERAGE_X};

verus! {

/// What opening a position does: the margin to move from the user to the
/// vault, the position to record, and the event to emit.
#[derive(Debug, Clone, Copy, PartialEq, Eq)]
pub struct OpenPositionOutcome {
    pub margin: u64,
    pub position: UserPosition,
    pub event: PositionOpened,
}

/// What closing a position does: the amounts to pay out of the vault and the event to emit.
#[derive(Debug, Clone, Copy, PartialEq, Eq)]
pub struct ClosePositionOutcome {
    /// Settlement paid from the vault to the user.
    pub to_user: u64,
    /// Fee paid from the vault to the fee destination.
    pub to_fee_destination: u64,
    pub event: PositionClosed,
}

// ---------------------------------------------------------------- opening

/// The margin a taker deposits: the quote spent divided by the leverage.
pub open spec fn open_margin(quote_to_spend: u64, leverage_x: u16) -> int {
    quote_to_spend as int / leverage_x as int
}

/// The size bought, in whole base units: `(quote * FP / price) / FP`.
pub open spec fn open_base_units(quote_to_spend: u64, price_fp: int) -> int {
    (quote_to_spend * FP / price_fp) / (FP as int)
}

/// The signed size recorded for `units` base units: positive for a long,
/// negated for a short, after the conversion of `units` to `i64`.
pub open spec fn signed_base_size(is_long: bool, units: int) -> int {
    if is_long { wrap_i64(units) } else { -wrap_i64(units) }
}

/// The leverage and pause checks that precede any arithmetic.
pub open spec fn open_checks_pass(config: Config, market: Market, leverage_x: u16) -> bool {
    &&& !config.paused
    &&& leverage_x <= MAX_LEVERAGE_X
    &&& leverage_x <= market.taker_leverage_cap_x
}

/// Whether `open_position` completes without a panic: a zero leverage that passes
/// the checks divides by zero, and a short of exactly 2^63 units negates `i64::MIN`.
pub open spec fn open_position_defined(
    config: Config,
    market: Market,
    oracle: OraclePrice,
    now: i64,
    is_long: bool,
    quote_to_spend: u64,
    leverage_x: u16,
) -> bool {
    open_checks_pass(config, market, leverage_x) ==> {
        &&& leverage_x != 0
        &&& current_mark_price_defined(market, oracle, now)
        &&& oracle_fresh(oracle, now) ==> {
            let units = open_base_units(quote_to_spend, mark_price_of(market, oracle.price_fp));
            units <= market.max_position_base && !is_long ==> wrap_i64(units) != i64::MIN
        }
    }
}

/// What `open_position` returns.
pub open spec fn open_position_result(
    config: Config,
    market: Market,
    oracle: OraclePrice,
    now: i64,
    user: Pubkey,
    market_key: Pubkey,
    is_long: bool,
    quote_to_spend: u64,
    leverage_x: u16,
) -> Result<OpenPositionOutcome, PerpsError> {
    if config.paused {
        Err(PerpsError::Unauthorized)
    } else if leverage_x > MAX_LEVERAGE_X || leverage_x > market.taker_leverage_cap_x {
        Err(PerpsError::LeverageTooHigh)
    } else if !oracle_fresh(oracle, now) {
        Err(PerpsError::BadOracle)
    } else {
        let price = mark_price_of(market, oracle.price_fp);
        let units = open_base_units(quote_to_spend, price);
        let margin = open_margin(quote_to_spend, leverage_x) as u64;
        if units > market.max_position_base {
            Err(PerpsError::MaxPositionExceeded)
        } else {
            Ok(OpenPositionOutcome {
                margin,
                position: UserPosition {
                    owner: user,
                    market: market_key,
                    is_long,
                    base_size: signed_base_size(is_long, units) as i64,
                    entry_price_fp: price as u128,
                    margin_deposited: margin,
                    last_funding_settled: now,
                },
                event: PositionOpened {
                    user,
                    market: market_key,
                    is_long,
                    base_size: units as u64,
                    entry_price_fp: price as u128,
                },
            })
        }
    }
}

proof fn lemma_open_units_bounded(quote_to_spend: u64, price_fp: int)
    requires
        price_fp >= 1,
    ensures
        0 <= quote_to_spend * FP / price_fp <= quote_to_spend * FP,
        0 <= open_base_units(quote_to_spend, price_fp) <= quote_to_spend,
{
    let scaled = quote_to_spend * FP;
    vstd::arithmetic::div_mod::lemma_div_is_ordered_by_denominator(scaled, 1, price_fp);
    vstd::arithmetic::div_mod::lemma_div_pos_is_pos(scaled, price_fp);
    vstd::arithmetic::div_mod::lemma_div_is_ordered(scaled / price_fp, scaled, FP as int);
    vstd::arithmetic::div_mod::lemma_div_multiples_vanish(quote_to_spend as int, FP as int);
    vstd::arithmetic::div_mod::lemma_div_pos_is_pos(scaled / price_fp, FP as int);
}

/// Opens (or overwrites) a taker position of `quote_to_spend` at `leverage_x`.
///
/// Refuses with `Unauthorized` when the program is paused, `LeverageTooHigh`
/// above the global or market leverage cap, `BadOracle` with a stale oracle,
/// and `MaxPositionExceeded` when the size exceeds the market's limit.
/// Otherwise the margin `quote / leverage` is deposited and the position is
/// recorded at the current mark price.
pub fn open_position(
    config: &Config,
    market: &Market,
    oracle: &OraclePrice,
    now: i64,
    user: Pubkey,
    market_key: Pubkey,
    is_long: bool,
    quote_to_spend: u64,
    leverage_x: u16,
) -> (r: Result<OpenPositionOutcome, PerpsError>)
    requires
        open_position_defined(*config, *market, *oracle, now, is_long, quote_to_spend, leverage_x),
    ensures
        r == open_position_result(*config, *market, *oracle, now, user, market_key, is_long, quote_to_spend, leverage_x),
{
    if config.paused {
        return Err(PerpsError::Unauthorized);
    }
    if leverage_x as u64 > MAX_LEVERAGE_X {
        return Err(PerpsError::LeverageTooHigh);
    }
    if leverage_x > market.taker_leverage_cap_x {
        return Err(PerpsError::LeverageTooHigh);
    }
    let margin = (quote_to_spend as u128 / leverage_x as u128) as u64;
    let price_fp = current_mark_price_fp(market, oracle, now)?;
    proof {
        lemma_open_units_bounded(quote_to_spend, price_fp as int);
    }
    let base_size_fp: u128 = (quote_to_spend as u128 * FP) / price_fp;
    let base_size_units: u64 = (base_size_fp / FP) as u64;
    if base_size_units > market.max_position_base {
        return Err(PerpsError::MaxPositionExceeded);
    }
    let units_signed = u64_as_i64(base_size_units);
    let base_size = if is_long { units_signed } else { -units_signed };
    let position = UserPosition {
        owner: user,
        market: market_key,
        is_long,
        base_size,
        entry_price_fp: price_fp,
        margin_deposited: margin,
        last_funding_settled: now,
    };
    let event = PositionOpened {
        user,
        market: market_key,
        is_long,
        base_size: base_size_units,
        entry_price_fp: price_fp,
    };
    Ok(OpenPositionOutcome { margin, position, event })
}

/// Whether `open_position` can be called without an arithmetic panic.
pub fn open_position_computable(
    config: &Config,
    market: &Market,
    oracle: &OraclePrice,
    now: i64,
    is_long: bool,
    quote_to_spend: u64,
    leverage_x: u16,
) -> (r: bool)
    ensures
        r == open_position_defined(*config, *market, *oracle, now, is_long, quote_to_spend, leverage_x),
{
    if config.paused || leverage_x as u64 > MAX_LEVERAGE_X || leverage_x > market.taker_leverage_cap_x {
        return true;
    }
    if leverage_x == 0 || !current_mark_price_computable(market, oracle, now) {
        return false;
    }
    match current_mark_price_fp(market, oracle, now) {
        Err(_) => true,
        Ok(price_fp) => {
            proof {
                lemma_open_units_bounded(quote_to_spend, price_fp as int);
            }
            let units = ((quote_to_spend as u128 * FP) / price_fp) / FP;
            !(units <= market.max_position_base as u128 && !is_long && units == 0x8000_0000_0000_0000u128)
        },
    }
}

// ---------------------------------------------------------------- closing

/// `|base_size|`.
pub open spec fn abs_base(p: UserPosition) -> int {
    if p.base_size < 0 { -p.base_size } else { p.base_size as int }
}

/// `+1` for a long (or empty) position, `-1` for a short.
pub open spec fn direction(p: UserPosition) -> int {
    if p.base_size >= 0 { 1 } else { -1 }
}

/// Notional value of the position at its entry price.
pub open spec fn notional_entry_fp(p: UserPosition) -> int {
    abs_base(p) * wrap_i128(p.entry_price_fp as int)
}

/// Notional value of the position at the mark price.
pub open spec fn notional_exit_fp(p: UserPosition, mark_fp: int) -> int {
    abs_base(p) * wrap_i128(mark_fp)
}

/// Profit (or loss, when negative) on closing at `mark_fp`, scaled by `FP`.
pub open spec fn close_pnl_fp(p: UserPosition, mark_fp: int) -> int {
    tdiv(direction(p) * (notional_exit_fp(p, mark_fp) - notional_entry_fp(p)), FP as int)
}

/// `|exit notional| * fee_bps / 10_000`: the trading fee, scaled by `FP`.
pub open spec fn close_fee_fp(config: Config, p: UserPosition, mark_fp: int) -> int {
    let exit = notional_exit_fp(p, mark_fp);
    let abs_exit = if exit < 0 { -exit } else { exit };
    (abs_exit * config.fee_bps) / 10_000
}

/// `margin * FP + pnl - fee`, before the floor at zero.
pub open spec fn close_settle_raw_fp(config: Config, p: UserPosition, mark_fp: int) -> int {
    p.margin_deposited * FP + close_pnl_fp(p, mark_fp) - wrap_i128(close_fee_fp(config, p, mark_fp))
}

/// Amount owed back to the user, scaled by `FP`: the settlement floored at zero.
pub open spec fn close_settle_fp(config: Config, p: UserPosition, mark_fp: int) -> int {
    let raw = close_settle_raw_fp(config, p, mark_fp);
    if raw < 0 { 0 } else { raw }
}

/// Whether every step of the closing arithmetic stays within its integer type.
pub open spec fn close_arithmetic_defined(config: Config, p: UserPosition, mark_fp: int) -> bool {
    let exit = notional_exit_fp(p, mark_fp);
    let diff = exit - notional_entry_fp(p);
    let abs_exit = if exit < 0 { -exit } else { exit };
    let with_pnl = p.margin_deposited * FP + close_pnl_fp(p, mark_fp);
    &&& fits_i128(notional_entry_fp(p))
    &&& fits_i128(exit)
    &&& fits_i128(diff)
    &&& fits_i128(direction(p) * diff)
    &&& fits_u128(abs_exit * config.fee_bps)
    &&& fits_i128(with_pnl)
    &&& fits_i128(with_pnl - wrap_i128(close_fee_fp(config, p, mark_fp)))
}

/// Whether `close_position` completes without a panic.
pub open spec fn close_position_defined(
    config: Config,
    market: Market,
    oracle: OraclePrice,
    p: UserPosition,
    now: i64,
) -> bool {
    &&& current_mark_price_defined(market, oracle, now)
    &&& oracle_fresh(oracle, now) ==> close_arithmetic_defined(config, p, mark_price_of(market, oracle.price_fp))
}

/// What `close_position` returns.
pub open spec fn close_position_result(
    config: Config,
    market: Market,
    oracle: OraclePrice,
    p: UserPosition,
    now: i64,
) -> Result<ClosePositionOutcome, PerpsError> {
    if !oracle_fresh(oracle, now) {
        Err(PerpsError::BadOracle)
    } else {
        let mark = mark_price_of(market, oracle.price_fp);
        let fee = close_fee_fp(config, p, mark);
        Ok(ClosePositionOutcome {
            to_user: trunc_u64(close_settle_fp(config, p, mark) / (FP as int)) as u64,
            to_fee_destination: trunc_u64(fee / (FP as int)) as u64,
            event: PositionClosed {
                user: p.owner,
                market: p.market,
                pnl_fp: close_pnl_fp(p, mark) as i128,
                fees_fp: fee as u128,
            },
        })
    }
}

/// The position after closing: size and margin zeroed, everything else kept.
pub open spec fn closed_position(p: UserPosition) -> UserPosition {
    UserPosition { base_size: 0, margin_deposited: 0, ..p }
}

/// The outcome of closing `p`, or `None` where the original arithmetic would panic.
fn close_position_checked(
    config: &Config,
    market: &Market,
    oracle: &OraclePrice,
    p: &UserPosition,
    now: i64,
) -> (r: Option<Result<ClosePositionOutcome, PerpsError>>)
    ensures
        close_position_defined(*config, *market, *oracle, *p, now) ==> r == Some(
            close_position_result(*config, *market, *oracle, *p, now),
        ),
        !close_position_defined(*config, *market, *oracle, *p, now) ==> r is None,
{
    if !current_mark_price_computable(market, oracle, now) {
        return None;
    }
    let mark_fp = match current_mark_price_fp(market, oracle, now) {
        Ok(v) => v,
        Err(e) => return Some(Err(e)),
    };
    let ghost mark = mark_fp as int;
    let signed_base = p.base_size as i128;
    let abs_base: i128 = if signed_base < 0 { -signed_base } else { signed_base };
    let entry_fp = u128_as_i128(p.entry_price_fp);
    let notional_entry_fp = match abs_base.checked_mul(entry_fp) {
        Some(v) => v,
        None => return None,
    };
    let notional_exit_fp = match abs_base.checked_mul(u128_as_i128(mark_fp)) {
        Some(v) => v,
        None => return None,
    };
    let direction: i128 = if signed_base >= 0 { 1 } else { -1 };
    let diff = match notional_exit_fp.checked_sub(notional_entry_fp) {
        Some(v) => v,
        None => return None,
    };
    let directed = match direction.checked_mul(diff) {
        Some(v) => v,
        None => return None,
    };
    let pnl_fp: i128 = i128_div(directed, 1_000_000i128);
    let abs_exit: u128 = if notional_exit_fp < 0 {
        if notional_exit_fp == i128::MIN {
            0x8000_0000_0000_0000_0000_0000_0000_0000u128
        } else {
            (-notional_exit_fp) as u128
        }
    } else {
        notional_exit_fp as u128
    };
    let fee_fp: u128 = match abs_exit.checked_mul(config.fee_bps as u128) {
        Some(v) => v / 10_000u128,
        None => return None,
    };
    let with_pnl = match (p.margin_deposited as i128 * 1_000_000i128).checked_add(pnl_fp) {
        Some(v) => v,
        None => return None,
    };
    let mut settle_fp: i128 = match with_pnl.checked_sub(u128_as_i128(fee_fp)) {
        Some(v) => v,
        None => return None,
    };
    if settle_fp < 0 {
        settle_fp = 0;
    }
    let settle_amt: u64 = u128_as_u64(i128_as_u128(settle_fp) / FP);
    let fee_amt: u64 = u128_as_u64(fee_fp / FP);
    let event = PositionClosed { user: p.owner, market: p.market, pnl_fp, fees_fp: fee_fp };
    Some(Ok(ClosePositionOutcome { to_user: settle_amt, to_fee_destination: fee_amt, event }))
}

/// Closes a position at the current mark price.
///
/// The user is paid back `margin + pnl - fee` (floored at zero), the fee
/// `|exit notional| * fee_bps / 10_000` goes to the fee destination, and the
/// position's size and margin are zeroed. With a stale oracle it fails with
/// `BadOracle` and leaves the position unchanged.
pub fn close_position(
    config: &Config,
    market: &Market,
    oracle: &OraclePrice,
    position: &mut UserPosition,
    now: i64,
) -> (r: Result<ClosePositionOutcome, PerpsError>)
    requires
        close_position_defined(*config, *market, *oracle, *old(position), now),
    ensures
        r == close_position_result(*config, *market, *oracle, *old(position), now),
        r is Ok ==> *final(position) == closed_position(*old(position)),
        r is Err ==> *final(position) == *old(position),
{
    match close_position_checked(config, market, oracle, position, now) {
        Some(Ok(outcome)) => {
            position.base_size = 0;
            position.margin_deposited = 0;
            Ok(outcome)
        },
        Some(Err(e)) => Err(e),
        None => {
            assert(false);
            Err(PerpsError::MathOverflow)
        },
    }
}

/// Whether `close_position` can be called without an arithmetic panic.
pub fn close_position_computable(
    config: &Config,
    market: &Market,
    oracle: &OraclePrice,
    position: &UserPosition,
    now: i64,
) -> (r: bool)
    ensures
        r == close_position_defined(*config, *market, *oracle, *position, now),
{
    close_position_checked(config, market, oracle, position, now).is_some()
}

} // verus!
