//! Properties that relate the program's operations to each other.
use vstd::prelude::*;
use vstd::arithmetic::div_mod::{lemma_div_multiples_vanish, lemma_fundamental_div_mod, lemma_div_pos_is_pos};
use crate::instructions::funding::{funding_due, funding_premium_fp, settle_funding_defined, settled_market, FUNDING_INTERVAL_SECS};
use crate::instructions::liquidate::{
    is_liquidatable, liq_equity_fp, liq_fee, liq_maintenance_fp, liq_notional_fp, liq_pnl_fp, liquidate_result,
    liquidated_position, Liquidation,
};
use crate::instructions::rewards::creator_reward_share;
use crate::instructions::trade::{
    abs_base, close_fee_fp, close_pnl_fp, close_position_result, close_settle_fp, closed_position,
    notional_entry_fp, notional_exit_fp, open_base_units, open_position_defined, open_position_result,
    close_position_defined, direction, OpenPositionOutcome,
};
use crate::math::{mark_price_defined, mark_price_of, reserve_ratio_fp, signed_mark_fp, skew_term_fp};
use crate::errors::PerpsError;
use crate::numeric::{tdiv, trunc_u64, wrap_i128};
use crate::oracle::oracle_fresh;
use crate::state::{Config, Market, OraclePrice, Pubkey, UserPosition, FP};

verus! {

proof fn lemma_tdiv_exact(w: int, c: int)
    requires
        w != 0,
        c >= 0,
    ensures
        tdiv(w * c, w) == c,
{
    if w > 0 {
        lemma_div_multiples_vanish(c, w);
        assert(w * c >= 0) by (nonlinear_arith)
            requires w > 0, c >= 0;
    } else {
        lemma_div_multiples_vanish(c, -w);
        assert(w * c <= 0) by (nonlinear_arith)
            requires w < 0, c >= 0;
        assert(-(w * c) == (-w) * c) by (nonlinear_arith);
        if c == 0 {
            assert(w * c == 0) by (nonlinear_arith) requires c == 0;
        }
    }
}

/// Without skew (`skew_k_bps == 0`), or with equal non-zero AMM reserves,
/// the mark price is the oracle index price (and never below 1).
pub proof fn law_mark_price_is_index_without_skew(m: Market, index_fp: u128)
    requires
        m.skew_k_bps == 0 || (m.amm_base_reserve_fp != 0 && m.amm_base_reserve_fp == m.amm_quote_reserve_fp),
    ensures
        mark_price_of(m, index_fp) == if index_fp >= 1 { index_fp as int } else { 1 },
{
    if m.skew_k_bps != 0 {
        let w = wrap_i128(m.amm_base_reserve_fp as int);
        lemma_tdiv_exact(w, FP as int);
        assert(reserve_ratio_fp(m) == FP);
    }
    assert(m.skew_k_bps * (reserve_ratio_fp(m) - FP) == 0) by (nonlinear_arith)
        requires m.skew_k_bps == 0 || reserve_ratio_fp(m) == FP;
    assert(skew_term_fp(m) == 0);
    let ix = wrap_i128(index_fp as int);
    assert(ix * 0 == 0);
    assert(signed_mark_fp(m, index_fp) == ix);
}

/// With equal non-zero reserves (or no skew), the funding premium is zero:
/// a settled funding rate is then 0.
pub proof fn law_funding_rate_zero_without_skew(m: Market, oracle: OraclePrice, now: i64)
    requires
        m.skew_k_bps == 0 || (m.amm_base_reserve_fp != 0 && m.amm_base_reserve_fp == m.amm_quote_reserve_fp),
        oracle.price_fp >= 1,
    ensures
        funding_premium_fp(m, oracle.price_fp) == 0,
        settled_market(m, oracle, now).funding_rate_fp == 0,
{
    law_mark_price_is_index_without_skew(m, oracle.price_fp);
    let index = wrap_i128(oracle.price_fp as int);
    assert(index != 0);
    assert((index - index) * FP == 0);
}

/// Funding settles at most once per interval: right after a settlement at
/// `now`, funding is not due again at any time before `now + 3600`.
pub proof fn law_funding_settles_at_most_once_per_interval(m: Market, oracle: OraclePrice, now: i64, later: i64)
    requires
        now <= later < now + FUNDING_INTERVAL_SECS,
    ensures
        !funding_due(settled_market(m, oracle, now), later),
{
}

/// A successful open deposits `quote / leverage` as margin, records that
/// margin on the position, respects the market's size limit, prices the
/// position at a positive entry price, never buys more than the quote pays
/// for (`units * entry_price <= quote`), and records the size with the
/// position's direction.
pub proof fn law_open_position_bounds(
    config: Config,
    market: Market,
    oracle: OraclePrice,
    now: i64,
    user: Pubkey,
    market_key: Pubkey,
    is_long: bool,
    quote_to_spend: u64,
    leverage_x: u16,
)
    requires
        open_position_defined(config, market, oracle, now, is_long, quote_to_spend, leverage_x),
        open_position_result(config, market, oracle, now, user, market_key, is_long, quote_to_spend, leverage_x) is Ok,
    ensures
        ({
            let o = open_position_result(config, market, oracle, now, user, market_key, is_long, quote_to_spend, leverage_x)->Ok_0;
            &&& o.margin * leverage_x <= quote_to_spend < (o.margin + 1) * leverage_x
            &&& o.position.margin_deposited == o.margin
            &&& o.event.base_size <= market.max_position_base
            &&& o.position.entry_price_fp >= 1
            &&& o.event.base_size * o.position.entry_price_fp <= quote_to_spend
            &&& o.event.base_size < 0x8000_0000_0000_0000 ==> o.position.base_size == (if is_long {
                o.event.base_size as int
            } else {
                -o.event.base_size
            })
            &&& o.position.owner == user && o.position.market == market_key
            &&& o.position.is_long == is_long
        }),
{
    let price = mark_price_of(market, oracle.price_fp);
    assert(1 <= price <= u128::MAX);
    let q = quote_to_spend as int;
    let l = leverage_x as int;
    lemma_fundamental_div_mod(q, l);
    assert((q / l) * l <= q < (q / l + 1) * l) by (nonlinear_arith)
        requires l > 0, q == l * (q / l) + q % l, 0 <= q % l < l;
    let scaled = q * FP;
    let x = scaled / price;
    let units = open_base_units(quote_to_spend, price);
    lemma_fundamental_div_mod(scaled, price);
    lemma_fundamental_div_mod(x, FP as int);
    lemma_div_pos_is_pos(scaled, price);
    assert(units * price <= q) by (nonlinear_arith)
        requires
            price >= 1,
            q >= 0,
            scaled == q * 1_000_000,
            scaled == price * x + scaled % price,
            0 <= scaled % price,
            x == 1_000_000 * units + x % 1_000_000,
            0 <= x % 1_000_000,
            x >= 0,
            units >= 0;
    assert(0 <= units <= q) by (nonlinear_arith)
        requires units * price <= q, price >= 1, units >= 0;
}

/// The collateral of a liquidated position is fully paid out: what is seized
/// for the fee destination plus what is returned to the user equals the
/// margin, and the seizure never exceeds the liquidation fee.
pub proof fn law_liquidation_conserves_margin(
    config: Config,
    market: Market,
    oracle: OraclePrice,
    p: UserPosition,
    now: i64,
)
    requires
        liquidate_result(config, market, oracle, p, now) matches Ok(Some(_)),
    ensures
        ({
            let l = liquidate_result(config, market, oracle, p, now)->Ok_0->Some_0;
            &&& l.seized + l.returned == p.margin_deposited
            &&& l.seized <= liq_fee(config, p, mark_price_of(market, oracle.price_fp))
            &&& l.event.seized_collateral == l.seized
        }),
{
    let mark = mark_price_of(market, oracle.price_fp);
    assert(0 <= liq_fee(config, p, mark));
}

/// A position with no size and no margin, as left by a close or a
/// liquidation, is never liquidated: with a fresh oracle `liquidate` leaves it alone.
pub proof fn law_empty_position_not_liquidatable(
    config: Config,
    market: Market,
    oracle: OraclePrice,
    p: UserPosition,
    now: i64,
)
    requires
        p.base_size == 0,
        p.margin_deposited == 0,
    ensures
        oracle_fresh(oracle, now) ==> liquidate_result(config, market, oracle, p, now) == Ok::<Option<Liquidation>, PerpsError>(None),
{
    let mark = mark_price_of(market, oracle.price_fp);
    let m = wrap_i128(mark);
    let e = wrap_i128(p.entry_price_fp as int);
    assert((m - e) * 0 == 0);
    assert(0 * mark == 0);
    assert(liq_notional_fp(p, mark) == 0);
    assert(liq_pnl_fp(p, mark) == 0);
    assert(liq_equity_fp(p, mark) == 0);
    assert(0 * market.maintenance_margin_bps == 0);
    assert(liq_maintenance_fp(market, p, mark) == 0);
    assert(!is_liquidatable(market, p, mark));
}

/// Closing and liquidating both leave a position that can no longer be liquidated.
pub proof fn law_closed_or_liquidated_position_stays_put(
    config: Config,
    market: Market,
    oracle: OraclePrice,
    p: UserPosition,
    now: i64,
)
    requires
        oracle_fresh(oracle, now),
    ensures
        liquidate_result(config, market, oracle, closed_position(p), now) == Ok::<Option<Liquidation>, PerpsError>(None),
        liquidate_result(config, market, oracle, liquidated_position(p), now) == Ok::<Option<Liquidation>, PerpsError>(None),
{
    law_empty_position_not_liquidatable(config, market, oracle, closed_position(p), now);
    law_empty_position_not_liquidatable(config, market, oracle, liquidated_position(p), now);
}

/// Closing at the entry price realises neither profit nor loss.
pub proof fn law_close_at_entry_price_has_no_pnl(p: UserPosition)
    ensures
        close_pnl_fp(p, p.entry_price_fp as int) == 0,
{
    assert(notional_exit_fp(p, p.entry_price_fp as int) == notional_entry_fp(p));
}

/// Closing a position of size zero charges no fee and refunds its whole margin.
pub proof fn law_close_empty_position_refunds_margin(
    config: Config,
    market: Market,
    oracle: OraclePrice,
    p: UserPosition,
    now: i64,
)
    requires
        p.base_size == 0,
        oracle_fresh(oracle, now),
    ensures
        ({
            let o = close_position_result(config, market, oracle, p, now)->Ok_0;
            &&& close_position_result(config, market, oracle, p, now) is Ok
            &&& o.to_user == p.margin_deposited
            &&& o.to_fee_destination == 0
            &&& o.event.pnl_fp == 0
            &&& o.event.fees_fp == 0
        }),
{
    let mark = mark_price_of(market, oracle.price_fp);
    assert(abs_base(p) == 0);
    let wm = wrap_i128(mark);
    let we = wrap_i128(p.entry_price_fp as int);
    assert(0 * wm == 0 && 0 * we == 0);
    assert(notional_exit_fp(p, mark) == 0);
    assert(notional_entry_fp(p) == 0);
    assert(close_pnl_fp(p, mark) == 0);
    assert(0 * config.fee_bps == 0);
    assert(close_fee_fp(config, p, mark) == 0);
    let margin = p.margin_deposited as int;
    lemma_div_multiples_vanish(margin, FP as int);
    assert(margin * FP == FP * margin);
    vstd::arithmetic::div_mod::lemma_small_mod(margin as nat, 0x1_0000_0000_0000_0000nat);
    assert(trunc_u64(margin) == margin);
}

/// With a reward rate of at most 100%, the swept share never exceeds the amount.
pub proof fn law_creator_reward_share_bounded(config: Config, amount: u64)
    requires
        config.creator_reward_bps <= 10_000,
    ensures
        0 <= creator_reward_share(config, amount) <= amount,
{
    let a = amount as int;
    let b = config.creator_reward_bps as int;
    assert(0 <= a * b <= a * 10_000) by (nonlinear_arith)
        requires 0 <= b <= 10_000, a >= 0;
    lemma_div_multiples_vanish(a, 10_000);
    vstd::arithmetic::div_mod::lemma_div_is_ordered(a * b, a * 10_000, 10_000);
    lemma_div_pos_is_pos(a * b, 10_000);
    assert(a * 10_000 == 10_000 * a);
}

/// Opening a position and closing it again at the same mark price realises
/// no profit or loss: the user gets back at most the margin, less the fee.
pub proof fn law_open_then_close_at_same_price(
    config: Config,
    market: Market,
    oracle: OraclePrice,
    now: i64,
    later: i64,
    user: Pubkey,
    market_key: Pubkey,
    is_long: bool,
    quote_to_spend: u64,
    leverage_x: u16,
)
    requires
        open_position_defined(config, market, oracle, now, is_long, quote_to_spend, leverage_x),
        open_position_result(config, market, oracle, now, user, market_key, is_long, quote_to_spend, leverage_x) is Ok,
        oracle_fresh(oracle, later),
    ensures
        ({
            let o = open_position_result(config, market, oracle, now, user, market_key, is_long, quote_to_spend, leverage_x)->Ok_0;
            let c = close_position_result(config, market, oracle, o.position, later)->Ok_0;
            let fee = close_fee_fp(config, o.position, mark_price_of(market, oracle.price_fp));
            &&& close_position_result(config, market, oracle, o.position, later) is Ok
            &&& c.event.pnl_fp == 0
            &&& fee < 0x8000_0000_0000_0000_0000_0000_0000_0000 ==> c.to_user <= o.margin
        }),
{
    let o = open_position_result(config, market, oracle, now, user, market_key, is_long, quote_to_spend, leverage_x)->Ok_0;
    let price = mark_price_of(market, oracle.price_fp);
    assert(1 <= price <= u128::MAX);
    assert(o.position.entry_price_fp as int == price);
    law_close_at_entry_price_has_no_pnl(o.position);
    let fee = close_fee_fp(config, o.position, price);
    let margin = o.position.margin_deposited as int;
    if fee < 0x8000_0000_0000_0000_0000_0000_0000_0000 {
        assert(fee >= 0) by {
            let e = notional_exit_fp(o.position, price);
            let a = if e < 0 { -e } else { e };
            assert(a * config.fee_bps >= 0) by (nonlinear_arith)
                requires a >= 0, config.fee_bps >= 0;
            lemma_div_pos_is_pos(a * config.fee_bps, 10_000);
        }
        let settle = close_settle_fp(config, o.position, price);
        assert(0 <= settle <= margin * FP);
        vstd::arithmetic::div_mod::lemma_div_is_ordered(settle, margin * FP, FP as int);
        lemma_div_multiples_vanish(margin, FP as int);
        assert(margin * FP == FP * margin);
        lemma_div_pos_is_pos(settle, FP as int);
        vstd::arithmetic::div_mod::lemma_small_mod((settle / (FP as int)) as nat, 0x1_0000_0000_0000_0000nat);
    }
}

/// Pausing blocks opening positions and nothing else: while paused, opening
/// fails with `Unauthorized`, and closing and liquidating behave exactly as
/// they would unpaused.
pub proof fn law_pause_blocks_only_opening(
    config: Config,
    market: Market,
    oracle: OraclePrice,
    p: UserPosition,
    now: i64,
    user: Pubkey,
    market_key: Pubkey,
    is_long: bool,
    quote_to_spend: u64,
    leverage_x: u16,
)
    ensures
        open_position_result(Config { paused: true, ..config }, market, oracle, now, user, market_key, is_long,
            quote_to_spend, leverage_x) == Err::<OpenPositionOutcome, PerpsError>(
            PerpsError::Unauthorized,
        ),
        close_position_result(Config { paused: true, ..config }, market, oracle, p, now) == close_position_result(
            config,
            market,
            oracle,
            p,
            now,
        ),
        liquidate_result(Config { paused: true, ..config }, market, oracle, p, now) == liquidate_result(
            config,
            market,
            oracle,
            p,
            now,
        ),
{
}

proof fn lemma_tdiv_neg(x: int, d: int)
    requires
        d > 0,
    ensures
        tdiv(-x, d) == -tdiv(x, d),
{
}

proof fn lemma_tdiv_nonneg(x: int, d: int)
    requires
        d > 0,
        x >= 0,
    ensures
        tdiv(x, d) >= 0,
{
    lemma_div_pos_is_pos(x, d);
}

/// Liquidation only takes positions whose equity falls short: a long whose
/// mark is at or above its entry (or a short whose mark is at or below its
/// entry), and whose margin `margin * FP` alone covers the maintenance
/// requirement `(|base| * mark / FP) * maintenance_margin_bps / 10_000`,
/// is never liquidated: `liquidate` returns `Ok(None)`.
pub proof fn law_covered_position_not_liquidated(
    config: Config,
    market: Market,
    oracle: OraclePrice,
    p: UserPosition,
    now: i64,
)
    requires
        oracle_fresh(oracle, now),
        ({
            let mark = mark_price_of(market, oracle.price_fp);
            let abs_base: int = if p.base_size < 0 { -p.base_size } else { p.base_size as int };
            let requirement = ((abs_base * mark) / 1_000_000) * market.maintenance_margin_bps / 10_000;
            &&& mark <= i128::MAX
            &&& p.entry_price_fp <= i128::MAX
            &&& (p.base_size >= 0 && mark >= p.entry_price_fp) || (p.base_size < 0 && mark <= p.entry_price_fp)
            &&& requirement <= i128::MAX
            &&& p.margin_deposited * 1_000_000 >= requirement
        }),
    ensures
        liquidate_result(config, market, oracle, p, now) == Ok::<Option<Liquidation>, PerpsError>(None),
{
    let mark = mark_price_of(market, oracle.price_fp);
    let e = p.entry_price_fp as int;
    let abs_b: int = if p.base_size < 0 { -p.base_size } else { p.base_size as int };
    assert(wrap_i128(mark) == mark);
    assert(wrap_i128(e) == e);
    assert(abs_b * mark >= 0) by (nonlinear_arith)
        requires abs_b >= 0, mark >= 1;
    lemma_div_pos_is_pos(abs_b * mark, 1_000_000);
    let n = liq_notional_fp(p, mark);
    assert(n * market.maintenance_margin_bps >= 0) by (nonlinear_arith)
        requires n >= 0, market.maintenance_margin_bps >= 0;
    lemma_div_pos_is_pos(n * market.maintenance_margin_bps, 10_000);
    let req = liq_maintenance_fp(market, p, mark);
    assert(wrap_i128(req) == req);
    if p.base_size >= 0 {
        assert((mark - e) * p.base_size >= 0) by (nonlinear_arith)
            requires mark - e >= 0, p.base_size >= 0;
        lemma_tdiv_nonneg((mark - e) * p.base_size, FP as int);
    } else {
        assert((e - mark) * (-p.base_size) >= 0) by (nonlinear_arith)
            requires e - mark >= 0, -p.base_size > 0;
        lemma_tdiv_nonneg((e - mark) * (-p.base_size), FP as int);
    }
    assert(liq_pnl_fp(p, mark) >= 0);
    assert(!is_liquidatable(market, p, mark));
}

/// A position with no margin that has lost at least one unit (`FP`) of value
/// is liquidated: its whole (empty) margin is settled and nothing is returned.
pub proof fn law_unmargined_loss_is_liquidated(
    config: Config,
    market: Market,
    oracle: OraclePrice,
    p: UserPosition,
    now: i64,
)
    requires
        oracle_fresh(oracle, now),
        p.margin_deposited == 0,
        ({
            let mark = mark_price_of(market, oracle.price_fp);
            let abs_base: int = if p.base_size < 0 { -p.base_size } else { p.base_size as int };
            let requirement = ((abs_base * mark) / 1_000_000) * market.maintenance_margin_bps / 10_000;
            &&& mark <= i128::MAX
            &&& p.entry_price_fp <= i128::MAX
            &&& requirement <= i128::MAX
            &&& p.base_size >= 0 ==> (p.entry_price_fp - mark) * p.base_size >= 1_000_000
            &&& p.base_size < 0 ==> (mark - p.entry_price_fp) * (-p.base_size) >= 1_000_000
        }),
    ensures
        liquidate_result(config, market, oracle, p, now) matches Ok(Some(l)) && l.seized == 0 && l.returned == 0,
{
    let mark = mark_price_of(market, oracle.price_fp);
    let e = p.entry_price_fp as int;
    let abs_b: int = if p.base_size < 0 { -p.base_size } else { p.base_size as int };
    assert(wrap_i128(mark) == mark);
    assert(wrap_i128(e) == e);
    assert(abs_b * mark >= 0) by (nonlinear_arith)
        requires abs_b >= 0, mark >= 1;
    lemma_div_pos_is_pos(abs_b * mark, 1_000_000);
    let n = liq_notional_fp(p, mark);
    assert(n * market.maintenance_margin_bps >= 0) by (nonlinear_arith)
        requires n >= 0, market.maintenance_margin_bps >= 0;
    lemma_div_pos_is_pos(n * market.maintenance_margin_bps, 10_000);
    let req = liq_maintenance_fp(market, p, mark);
    assert(wrap_i128(req) == req);
    if p.base_size >= 0 {
        let loss = (e - mark) * p.base_size;
        assert((mark - e) * p.base_size == -loss) by (nonlinear_arith)
            requires loss == (e - mark) * p.base_size;
        lemma_tdiv_neg(loss, FP as int);
        vstd::arithmetic::div_mod::lemma_div_is_ordered(1_000_000, loss, 1_000_000);
        assert(1_000_000int / 1_000_000 == 1);
    } else {
        let loss = (mark - e) * (-p.base_size);
        assert((e - mark) * (-p.base_size) == -loss) by (nonlinear_arith)
            requires loss == (mark - e) * (-p.base_size);
        lemma_tdiv_neg(loss, FP as int);
        vstd::arithmetic::div_mod::lemma_div_is_ordered(1_000_000, loss, 1_000_000);
        assert(1_000_000int / 1_000_000 == 1);
    }
    assert(liq_pnl_fp(p, mark) <= -1);
    assert(liq_equity_fp(p, mark) < 0);
    assert(is_liquidatable(market, p, mark));
}

/// A short books the opposite pnl of a long of the same size and entry
/// closed at the same mark; closing is otherwise size-for-size symmetric.
pub proof fn law_short_pnl_is_negated_long_pnl(
    config: Config,
    market: Market,
    oracle: OraclePrice,
    p: UserPosition,
    now: i64,
)
    requires
        oracle_fresh(oracle, now),
        p.base_size < 0,
        p.base_size > i64::MIN,
        close_position_defined(config, market, oracle, p, now),
        close_position_defined(config, market, oracle, UserPosition { base_size: -p.base_size as i64, ..p }, now),
    ensures
        close_position_result(config, market, oracle, p, now)->Ok_0.event.pnl_fp
            == -close_position_result(config, market, oracle, UserPosition { base_size: -p.base_size as i64, ..p }, now)->Ok_0.event.pnl_fp,
        close_position_result(config, market, oracle, p, now)->Ok_0.event.fees_fp
            == close_position_result(config, market, oracle, UserPosition { base_size: -p.base_size as i64, ..p }, now)->Ok_0.event.fees_fp,
{
    let q = UserPosition { base_size: -p.base_size as i64, ..p };
    let mark = mark_price_of(market, oracle.price_fp);
    assert(abs_base(p) == abs_base(q));
    assert(notional_exit_fp(p, mark) == notional_exit_fp(q, mark));
    assert(notional_entry_fp(p) == notional_entry_fp(q));
    let diff = notional_exit_fp(p, mark) - notional_entry_fp(p);
    lemma_tdiv_neg(diff, FP as int);
    assert(close_pnl_fp(p, mark) == -close_pnl_fp(q, mark));
}

/// Closing gains when the price moved the position's way: a long closed at
/// or above its entry, or a short closed at or below it, books a
/// non-negative pnl.
pub proof fn law_close_pnl_sign(
    config: Config,
    market: Market,
    oracle: OraclePrice,
    p: UserPosition,
    now: i64,
)
    requires
        oracle_fresh(oracle, now),
        close_position_defined(config, market, oracle, p, now),
        mark_price_of(market, oracle.price_fp) <= i128::MAX,
        p.entry_price_fp <= i128::MAX,
        (p.base_size >= 0 && mark_price_of(market, oracle.price_fp) >= p.entry_price_fp)
            || (p.base_size < 0 && mark_price_of(market, oracle.price_fp) <= p.entry_price_fp),
    ensures
        close_position_result(config, market, oracle, p, now)->Ok_0.event.pnl_fp >= 0,
{
    let mark = mark_price_of(market, oracle.price_fp);
    let e = p.entry_price_fp as int;
    let a = abs_base(p);
    assert(wrap_i128(mark) == mark);
    assert(wrap_i128(e) == e);
    let diff = notional_exit_fp(p, mark) - notional_entry_fp(p);
    assert(diff == a * (mark - e)) by (nonlinear_arith)
        requires diff == a * mark - a * e;
    if p.base_size >= 0 {
        assert(a * (mark - e) >= 0) by (nonlinear_arith) requires a >= 0, mark - e >= 0;
        assert(direction(p) * diff == diff);
        lemma_tdiv_nonneg(diff, FP as int);
    } else {
        assert(a * (e - mark) >= 0) by (nonlinear_arith) requires a >= 0, e - mark >= 0;
        assert(direction(p) * diff == a * (e - mark)) by (nonlinear_arith)
            requires direction(p) == -1, diff == a * (mark - e);
        lemma_tdiv_nonneg(a * (e - mark), FP as int);
    }
}

/// Leverage is refused only above a cap: with the program unpaused, a fresh
/// oracle, a leverage between 1 and both the global and the market cap, and a
/// size `(quote * FP / mark) / FP` within the market's limit, opening succeeds
/// and deposits `quote / leverage`; and `LeverageTooHigh` is only ever
/// returned when the leverage exceeds one of the caps.
pub proof fn law_open_position_accepts_capped_leverage(
    config: Config,
    market: Market,
    oracle: OraclePrice,
    now: i64,
    user: Pubkey,
    market_key: Pubkey,
    is_long: bool,
    quote_to_spend: u64,
    leverage_x: u16,
)
    ensures
        ({
            let mark = mark_price_of(market, oracle.price_fp);
            (!config.paused && oracle_fresh(oracle, now) && 1 <= leverage_x <= 40
                && leverage_x <= market.taker_leverage_cap_x
                && (quote_to_spend * 1_000_000 / mark) / 1_000_000 <= market.max_position_base) ==> {
                &&& open_position_result(config, market, oracle, now, user, market_key, is_long, quote_to_spend, leverage_x) is Ok
                &&& open_position_result(config, market, oracle, now, user, market_key, is_long, quote_to_spend, leverage_x)->Ok_0.margin
                    == quote_to_spend as int / leverage_x as int
            }
        }),
        open_position_result(config, market, oracle, now, user, market_key, is_long, quote_to_spend, leverage_x)
            == Err::<OpenPositionOutcome, PerpsError>(PerpsError::LeverageTooHigh) ==> !config.paused && (
        leverage_x > 40 || leverage_x > market.taker_leverage_cap_x),
{
}

/// The funding rate recorded by a due settlement with a fresh oracle is the
/// premium `(mark - index) * FP / index` rounded toward zero, and nothing
/// else: it is within one `index` of that product, on the same side of zero,
/// with no cap.
pub proof fn law_funding_rate_is_truncated_premium(m: Market, oracle: OraclePrice, now: i64)
    requires
        settle_funding_defined(m, oracle, now),
        funding_due(m, now),
        oracle_fresh(oracle, now),
        1 <= oracle.price_fp <= i128::MAX,
        mark_price_of(m, oracle.price_fp) <= i128::MAX,
    ensures
        ({
            let r = settled_market(m, oracle, now).funding_rate_fp as int;
            let index = oracle.price_fp as int;
            let d = (mark_price_of(m, oracle.price_fp) - index) * 1_000_000;
            &&& d >= 0 ==> r * index <= d < (r + 1) * index
            &&& d < 0 ==> (r - 1) * index < d <= r * index
        }),
{
    let index = oracle.price_fp as int;
    let mark = mark_price_of(m, oracle.price_fp);
    assert(wrap_i128(mark) == mark);
    assert(wrap_i128(index) == index);
    let d = (mark - index) * 1_000_000;
    let ad: int = if d >= 0 { d } else { -d };
    lemma_fundamental_div_mod(ad, index);
    vstd::arithmetic::div_mod::lemma_div_is_ordered_by_denominator(ad, 1, index);
    vstd::arithmetic::div_mod::lemma_div_basics(ad);
    lemma_div_pos_is_pos(ad, index);
    let q = ad / index;
    assert(0 <= ad % index < index) by {
        vstd::arithmetic::div_mod::lemma_mod_bound(ad, index);
    }
    assert(funding_premium_fp(m, oracle.price_fp) == if d >= 0 { q } else { -q });
    assert(q * index == index * q) by (nonlinear_arith);
    if d >= 0 {
        assert((q + 1) * index == q * index + index) by (nonlinear_arith);
    } else {
        assert((-q) * index == -(q * index)) by (nonlinear_arith);
        assert((-q - 1) * index == -(q * index) - index) by (nonlinear_arith);
    }
}

/// The size bought is the quote spent divided by the entry price, rounded
/// down (`units * price <= quote < (units + 1) * price`); the position is
/// entered at the current mark price and its funding clock starts at `now`.
pub proof fn law_open_size_is_quote_over_price(
    config: Config,
    market: Market,
    oracle: OraclePrice,
    now: i64,
    user: Pubkey,
    market_key: Pubkey,
    is_long: bool,
    quote_to_spend: u64,
    leverage_x: u16,
)
    requires
        open_position_defined(config, market, oracle, now, is_long, quote_to_spend, leverage_x),
        open_position_result(config, market, oracle, now, user, market_key, is_long, quote_to_spend, leverage_x) is Ok,
    ensures
        ({
            let o = open_position_result(config, market, oracle, now, user, market_key, is_long, quote_to_spend, leverage_x)->Ok_0;
            &&& o.position.entry_price_fp == mark_price_of(market, oracle.price_fp)
            &&& o.event.entry_price_fp == o.position.entry_price_fp
            &&& o.event.base_size == quote_to_spend as int / o.position.entry_price_fp as int
            &&& o.position.last_funding_settled == now
        }),
{
    let price = mark_price_of(market, oracle.price_fp);
    assert(1 <= price <= u128::MAX);
    let q = quote_to_spend as int;
    let scaled = q * 1_000_000;
    let x = scaled / price;
    let units = open_base_units(quote_to_spend, price);
    lemma_fundamental_div_mod(scaled, price);
    lemma_fundamental_div_mod(x, 1_000_000);
    lemma_div_pos_is_pos(scaled, price);
    vstd::arithmetic::div_mod::lemma_mod_bound(scaled, price);
    vstd::arithmetic::div_mod::lemma_mod_bound(x, 1_000_000);
    assert(units * price <= q < (units + 1) * price) by (nonlinear_arith)
        requires
            price >= 1,
            q >= 0,
            scaled == q * 1_000_000,
            scaled == price * x + scaled % price,
            0 <= scaled % price < price,
            x == 1_000_000 * units + x % 1_000_000,
            0 <= x % 1_000_000 < 1_000_000,
            x >= 0;
    assert(units >= 0) by (nonlinear_arith)
        requires x >= 0, x == 1_000_000 * units + x % 1_000_000, x % 1_000_000 < 1_000_000;
    assert((units + 1) * price == units * price + price) by (nonlinear_arith);
    vstd::arithmetic::div_mod::lemma_fundamental_div_mod_converse(q, price, units, q - units * price);
    assert(units <= u64::MAX) by (nonlinear_arith)
        requires units * price <= q, price >= 1, q <= u64::MAX, units >= 0;
}

/// Closing pays out exactly what the fee and pnl leave: the fee is
/// `|base| * mark * fee_bps / 10_000`, the fee destination gets `fee / FP`,
/// and the user gets `(margin * FP + pnl - fee) / FP`, or nothing when that
/// is negative.
pub proof fn law_close_payouts(
    config: Config,
    market: Market,
    oracle: OraclePrice,
    p: UserPosition,
    now: i64,
)
    requires
        oracle_fresh(oracle, now),
        close_position_defined(config, market, oracle, p, now),
        mark_price_of(market, oracle.price_fp) <= i128::MAX,
    ensures
        ({
            let c = close_position_result(config, market, oracle, p, now)->Ok_0;
            let mark = mark_price_of(market, oracle.price_fp);
            let abs_b: int = if p.base_size < 0 { -p.base_size } else { p.base_size as int };
            let fee = (abs_b * mark * config.fee_bps) / 10_000;
            let settle = p.margin_deposited * 1_000_000 + c.event.pnl_fp - c.event.fees_fp;
            &&& close_position_result(config, market, oracle, p, now) is Ok
            &&& c.event.fees_fp == fee
            &&& c.to_fee_destination == (fee / 1_000_000) % 0x1_0000_0000_0000_0000
            &&& fee < 0x8000_0000_0000_0000_0000_0000_0000_0000 ==> c.to_user == (if settle < 0 {
                0
            } else {
                (settle / 1_000_000) % 0x1_0000_0000_0000_0000
            })
            &&& c.event.user == p.owner && c.event.market == p.market
        }),
{
    let mark = mark_price_of(market, oracle.price_fp);
    assert(wrap_i128(mark) == mark);
    let a = abs_base(p);
    assert(a * mark >= 0) by (nonlinear_arith) requires a >= 0, mark >= 0;
    assert(notional_exit_fp(p, mark) == a * mark);
    assert(a * mark * config.fee_bps >= 0) by (nonlinear_arith) requires a * mark >= 0, config.fee_bps >= 0;
    lemma_div_pos_is_pos(a * mark * config.fee_bps, 10_000);
}

/// Liquidation seizes the liquidation fee `(|base| * mark / FP) * liq_fee_bps / 10_000`
/// (as a `u64`), capped by the margin, and returns the rest of the margin.
pub proof fn law_liquidation_amounts(
    config: Config,
    market: Market,
    oracle: OraclePrice,
    p: UserPosition,
    now: i64,
)
    requires
        liquidate_result(config, market, oracle, p, now) matches Ok(Some(_)),
    ensures
        ({
            let l = liquidate_result(config, market, oracle, p, now)->Ok_0->Some_0;
            let mark = mark_price_of(market, oracle.price_fp);
            let abs_b: int = if p.base_size < 0 { -p.base_size } else { p.base_size as int };
            let fee = (((abs_b * mark) / 1_000_000) * config.liq_fee_bps / 10_000) % 0x1_0000_0000_0000_0000;
            &&& l.seized == (if p.margin_deposited <= fee { p.margin_deposited as int } else { fee })
            &&& l.returned == p.margin_deposited - l.seized
            &&& l.event.user == p.owner && l.event.market == p.market
        }),
{
    let mark = mark_price_of(market, oracle.price_fp);
    assert(0 <= liq_fee(config, p, mark));
}

/// Without reserve wrap-around, a quote reserve at least as large as the base
/// reserve never prices the mark below the index, and one at most as large
/// never prices it above the index (when the mark stays below 2^127).
pub proof fn law_mark_price_follows_reserve_skew(m: Market, index_fp: u128)
    requires
        mark_price_defined(m, index_fp),
        1 <= m.amm_base_reserve_fp <= i128::MAX,
        m.amm_quote_reserve_fp <= i128::MAX,
        1 <= index_fp <= i128::MAX,
    ensures
        m.amm_quote_reserve_fp >= m.amm_base_reserve_fp ==> mark_price_of(m, index_fp) >= index_fp,
        m.amm_quote_reserve_fp <= m.amm_base_reserve_fp && mark_price_of(m, index_fp) <= i128::MAX
            ==> mark_price_of(m, index_fp) <= index_fp,
{
    let q = m.amm_quote_reserve_fp as int;
    let b = m.amm_base_reserve_fp as int;
    let ix = index_fp as int;
    assert(wrap_i128(q) == q && wrap_i128(b) == b && wrap_i128(ix) == ix);
    let k = m.skew_k_bps as int;
    let ratio = reserve_ratio_fp(m);
    assert(q * 1_000_000 >= 0) by (nonlinear_arith) requires q >= 0;
    assert(ratio == (q * 1_000_000) / b);
    if q >= b {
        assert(q * 1_000_000 >= b * 1_000_000) by (nonlinear_arith) requires q >= b;
        lemma_div_multiples_vanish(1_000_000, b);
        assert(b * 1_000_000 == 1_000_000 * b) by (nonlinear_arith);
        vstd::arithmetic::div_mod::lemma_div_is_ordered(b * 1_000_000, q * 1_000_000, b);
        assert(k * (ratio - 1_000_000) >= 0) by (nonlinear_arith) requires k >= 0, ratio >= 1_000_000;
        lemma_tdiv_nonneg(k * (ratio - 1_000_000), 10_000);
        let sk = skew_term_fp(m);
        assert(ix * sk >= 0) by (nonlinear_arith) requires ix >= 0, sk >= 0;
        lemma_tdiv_nonneg(ix * sk, FP as int);
    }
    if q <= b {
        assert(q * 1_000_000 <= b * 1_000_000) by (nonlinear_arith) requires q <= b;
        lemma_div_multiples_vanish(1_000_000, b);
        assert(b * 1_000_000 == 1_000_000 * b) by (nonlinear_arith);
        vstd::arithmetic::div_mod::lemma_div_is_ordered(q * 1_000_000, b * 1_000_000, b);
        let w = k * (ratio - 1_000_000);
        assert(w <= 0) by (nonlinear_arith) requires k >= 0, ratio <= 1_000_000, w == k * (ratio - 1_000_000);
        lemma_tdiv_neg(-w, 10_000);
        lemma_tdiv_nonneg(-w, 10_000);
        let sk = skew_term_fp(m);
        assert(sk <= 0);
        assert(ix * sk <= 0) by (nonlinear_arith) requires ix >= 0, sk <= 0;
        lemma_tdiv_neg(-(ix * sk), FP as int);
        lemma_tdiv_nonneg(-(ix * sk), FP as int);
    }
}

/// The two clocks of the program: funding is due exactly once 3600 seconds
/// have passed since the last settlement, and an oracle price is accepted
/// exactly while it is less than 120 seconds old.
pub proof fn law_time_thresholds(m: Market, oracle: OraclePrice, now: i64)
    ensures
        funding_due(m, now) <==> now - m.last_funding_ts >= 3600,
        oracle_fresh(oracle, now) <==> now - oracle.last_updated_ts < 120,
{
}

/// The swept creator reward is `amount * creator_reward_bps / 10_000` rounded
/// down: `share * 10_000 <= amount * bps < (share + 1) * 10_000`.
pub proof fn law_creator_reward_share_rounds_down(config: Config, amount: u64)
    ensures
        ({
            let share = creator_reward_share(config, amount);
            share * 10_000 <= amount * config.creator_reward_bps < (share + 1) * 10_000
        }),
{
    let x = amount * config.creator_reward_bps;
    lemma_fundamental_div_mod(x, 10_000);
    vstd::arithmetic::div_mod::lemma_mod_bound(x, 10_000);
}

} // verus!
