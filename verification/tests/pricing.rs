use solana_perps_flywheel::errors::PerpsError;
use solana_perps_flywheel::instructions::funding::{settle_funding, settle_funding_computable};
use solana_perps_flywheel::math::{current_mark_price_computable, current_mark_price_fp};
use solana_perps_flywheel::numeric::{i128_as_u128, i128_div, u128_as_i128, u128_as_u64, u64_as_i64};
use solana_perps_flywheel::oracle::{oracle_age_computable, read_oracle_fp};
use solana_perps_flywheel::state::{Market, OraclePrice, Pubkey};

fn market(quote: u128, base: u128, skew_k_bps: u32) -> Market {
    Market {
        symbol: *b"SOL-PERP\0\0\0\0",
        base_decimals: 9,
        oracle: Pubkey([7u8; 32]),
        amm_base_reserve_fp: base,
        amm_quote_reserve_fp: quote,
        funding_rate_fp: 0,
        last_funding_ts: 0,
        skew_k_bps,
        max_position_base: 1_000,
        maintenance_margin_bps: 500,
        taker_leverage_cap_x: 20,
    }
}

fn oracle(price_fp: u128, last_updated_ts: i64) -> OraclePrice {
    OraclePrice { price_fp, last_updated_ts }
}

#[test]
fn signed_division_rounds_toward_zero() {
    assert_eq!(i128_div(-7, 2), -3);
    assert_eq!(i128_div(7, -2), -3);
    assert_eq!(i128_div(-7, -2), 3);
    assert_eq!(i128_div(7, 2), 3);
}

#[test]
fn conversions_wrap_like_casts() {
    assert_eq!(u128_as_i128(u128::MAX), -1);
    assert_eq!(u128_as_i128(1u128 << 127), i128::MIN);
    assert_eq!(u128_as_i128(5), 5);
    assert_eq!(i128_as_u128(-1), u128::MAX);
    assert_eq!(i128_as_u128(i128::MIN), 1u128 << 127);
    assert_eq!(u64_as_i64(u64::MAX), -1);
    assert_eq!(u64_as_i64(1u64 << 63), i64::MIN);
    assert_eq!(u128_as_u64((1u128 << 64) + 9), 9);
}

#[test]
fn fresh_oracle_price_is_read() {
    assert_eq!(read_oracle_fp(&oracle(42, 1_000), 1_119), Ok(42));
}

#[test]
fn stale_oracle_is_refused() {
    assert_eq!(read_oracle_fp(&oracle(42, 1_000), 1_120), Err(PerpsError::BadOracle));
}

#[test]
fn oracle_age_overflow_is_detected() {
    assert!(!oracle_age_computable(&oracle(42, 1), i64::MIN));
    assert!(oracle_age_computable(&oracle(42, 1), 100));
}

#[test]
fn mark_price_skews_up_with_rich_quote_reserve() {
    let m = market(1_100_000, 1_000_000, 5_000);
    assert_eq!(current_mark_price_fp(&m, &oracle(10_000_000, 100), 100), Ok(10_500_000));
}

#[test]
fn mark_price_skews_down_with_poor_quote_reserve() {
    let m = market(900_000, 1_000_000, 10_000);
    assert_eq!(current_mark_price_fp(&m, &oracle(10_000_000, 100), 100), Ok(9_000_000));
}

#[test]
fn mark_price_truncates_negative_skew_toward_zero() {
    let m = market(900_000, 1_000_000, 10_000);
    assert_eq!(current_mark_price_fp(&m, &oracle(3, 100), 100), Ok(3));
}

#[test]
fn mark_price_equals_index_when_balanced() {
    let m = market(2_000_000, 2_000_000, 9_999);
    assert_eq!(current_mark_price_fp(&m, &oracle(123_456_789, 100), 100), Ok(123_456_789));
    let unskewed = market(7, 3, 0);
    assert_eq!(current_mark_price_fp(&unskewed, &oracle(55, 100), 100), Ok(55));
}

#[test]
fn mark_price_is_never_below_one() {
    let m = market(1, 1, 5_000);
    assert_eq!(current_mark_price_fp(&m, &oracle(0, 100), 100), Ok(1));
}

#[test]
fn negative_signed_mark_wraps_to_a_huge_price() {
    let m = market(0, 1_000_000, 20_000);
    assert_eq!(current_mark_price_fp(&m, &oracle(10, 100), 100), Ok(u128::MAX - 9));
}

#[test]
fn mark_price_with_stale_oracle_fails() {
    let m = market(1_100_000, 1_000_000, 5_000);
    assert_eq!(current_mark_price_fp(&m, &oracle(10_000_000, 0), 500), Err(PerpsError::BadOracle));
}

#[test]
fn mark_price_panics_are_detected() {
    assert!(!current_mark_price_computable(&market(1, 0, 5_000), &oracle(10, 100), 100));
    assert!(!current_mark_price_computable(&market(u128::MAX >> 1, 1, 5_000), &oracle(10, 100), 100));
    assert!(current_mark_price_computable(&market(1, 0, 5_000), &oracle(10, 0), 500));
    assert!(current_mark_price_computable(&market(1_100_000, 1_000_000, 5_000), &oracle(10, 100), 100));
}

#[test]
fn funding_not_due_leaves_market_unchanged() {
    let mut m = market(1_100_000, 1_000_000, 5_000);
    let before = m;
    assert_eq!(settle_funding(&mut m, &oracle(10_000_000, 3_599), 3_599), Ok(()));
    assert_eq!(m, before);
}

#[test]
fn funding_records_premium_after_an_hour() {
    let mut m = market(1_100_000, 1_000_000, 5_000);
    assert_eq!(settle_funding(&mut m, &oracle(10_000_000, 3_600), 3_600), Ok(()));
    assert_eq!(m.funding_rate_fp, 50_000);
    assert_eq!(m.last_funding_ts, 3_600);
    assert_eq!(m.amm_quote_reserve_fp, 1_100_000);
}

#[test]
fn funding_premium_can_be_negative() {
    let mut m = market(900_000, 1_000_000, 10_000);
    assert_eq!(settle_funding(&mut m, &oracle(10_000_000, 4_000), 4_000), Ok(()));
    assert_eq!(m.funding_rate_fp, -100_000);
}

#[test]
fn funding_settles_at_most_once_an_hour() {
    let mut m = market(1_100_000, 1_000_000, 5_000);
    assert_eq!(settle_funding(&mut m, &oracle(10_000_000, 3_600), 3_600), Ok(()));
    let after_first = m;
    let mut o2 = oracle(20_000_000, 7_000);
    assert_eq!(settle_funding(&mut m, &o2, 7_199), Ok(()));
    assert_eq!(m, after_first);
    o2.last_updated_ts = 7_200;
    assert_eq!(settle_funding(&mut m, &o2, 7_200), Ok(()));
    assert_eq!(m.last_funding_ts, 7_200);
}

#[test]
fn funding_rate_is_zero_when_balanced() {
    let mut m = market(1_000_000, 1_000_000, 5_000);
    m.funding_rate_fp = 77;
    assert_eq!(settle_funding(&mut m, &oracle(10_000_000, 3_600), 3_600), Ok(()));
    assert_eq!(m.funding_rate_fp, 0);
}

#[test]
fn funding_with_stale_oracle_fails_unchanged() {
    let mut m = market(1_100_000, 1_000_000, 5_000);
    let before = m;
    assert_eq!(settle_funding(&mut m, &oracle(10_000_000, 0), 3_600), Err(PerpsError::BadOracle));
    assert_eq!(m, before);
}

#[test]
fn funding_panics_are_detected() {
    let m = market(1_000_000, 1_000_000, 5_000);
    let recent = Market { last_funding_ts: 1, ..market(1, 1, 0) };
    assert!(!settle_funding_computable(&recent, &oracle(1, 1), i64::MIN));
    assert!(!settle_funding_computable(&m, &oracle(0, 3_600), 3_600));
    assert!(settle_funding_computable(&m, &oracle(0, 3_600), 100));
    assert!(settle_funding_computable(&m, &oracle(10, 3_600), 3_600));
}
