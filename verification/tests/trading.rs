use solana_perps_flywheel::errors::{KeyCheckError, PerpsError};
use solana_perps_flywheel::events::{Liquidated, PositionClosed, PositionOpened};
use solana_perps_flywheel::instructions::admin::{edit_max_position, initialize_config, pause, set_fee_destination};
use solana_perps_flywheel::instructions::create_market::create_market;
use solana_perps_flywheel::instructions::liquidate::{liquidate, liquidate_computable, Liquidation};
use solana_perps_flywheel::instructions::rewards::{sweep_creator_rewards, sweep_creator_rewards_computable};
use solana_perps_flywheel::instructions::trade::{
    close_position, close_position_computable, open_position, open_position_computable,
};
use solana_perps_flywheel::state::{Config, Market, OraclePrice, Pubkey, UserPosition};

fn key(b: u8) -> Pubkey {
    Pubkey([b; 32])
}

fn config() -> Config {
    initialize_config(key(1), key(2), key(3), key(4), key(5), 30, 2, 250)
}

fn balanced_market() -> Market {
    Market {
        symbol: *b"BTC-PERP\0\0\0\0",
        base_decimals: 8,
        oracle: key(9),
        amm_base_reserve_fp: 1_000_000,
        amm_quote_reserve_fp: 1_000_000,
        funding_rate_fp: 0,
        last_funding_ts: 0,
        skew_k_bps: 5_000,
        max_position_base: 1_000,
        maintenance_margin_bps: 500,
        taker_leverage_cap_x: 20,
    }
}

fn skewed_market() -> Market {
    Market { amm_quote_reserve_fp: 1_100_000, ..balanced_market() }
}

fn oracle(price_fp: u128) -> OraclePrice {
    OraclePrice { price_fp, last_updated_ts: 1_000 }
}

fn position(base_size: i64, entry_price_fp: u128, margin_deposited: u64) -> UserPosition {
    UserPosition {
        owner: key(10),
        market: key(11),
        is_long: base_size >= 0,
        base_size,
        entry_price_fp,
        margin_deposited,
        last_funding_settled: 0,
    }
}

#[test]
fn initialize_config_sets_every_field() {
    let c = config();
    assert_eq!(c.admin, key(1));
    assert_eq!(c.quote_mint, key(2));
    assert_eq!(c.fee_destination, key(3));
    assert_eq!(c.insurance_vault, key(4));
    assert_eq!(c.creator_reward_mint, key(5));
    assert_eq!((c.fee_bps, c.liq_fee_bps, c.creator_reward_bps), (30, 2, 250));
    assert!(!c.paused);
}

#[test]
fn admin_updates_touch_one_field() {
    let mut c = config();
    let before = c;
    set_fee_destination(&mut c, key(42));
    assert_eq!(c, Config { fee_destination: key(42), ..before });
    pause(&mut c, true);
    assert!(c.paused);
    pause(&mut c, false);
    assert_eq!(c, Config { fee_destination: key(42), ..before });
    let mut m = balanced_market();
    edit_max_position(&mut m, 7);
    assert_eq!(m, Market { max_position_base: 7, ..balanced_market() });
}

#[test]
fn create_market_initialises_the_account() {
    let mut m = balanced_market();
    m.funding_rate_fp = 99;
    let r = create_market(&mut m, key(8), 1_234, *b"ETH-PERP\0\0\0\0", 18, 300, 500, 600, 40, 5, 6);
    assert_eq!(r, Ok(()));
    assert_eq!(
        m,
        Market {
            symbol: *b"ETH-PERP\0\0\0\0",
            base_decimals: 18,
            oracle: key(8),
            amm_base_reserve_fp: 5,
            amm_quote_reserve_fp: 6,
            funding_rate_fp: 0,
            last_funding_ts: 1_234,
            skew_k_bps: 300,
            max_position_base: 500,
            maintenance_margin_bps: 600,
            taker_leverage_cap_x: 40,
        }
    );
}

#[test]
fn create_market_refuses_excessive_leverage_cap() {
    let mut m = balanced_market();
    let before = m;
    let r = create_market(&mut m, key(8), 1_234, *b"ETH-PERP\0\0\0\0", 18, 300, 500, 600, 41, 5, 6);
    assert_eq!(r, Err(PerpsError::LeverageTooHigh));
    assert_eq!(m, before);
}

#[test]
fn open_long_position() {
    let r = open_position(&config(), &skewed_market(), &oracle(10_000_000), 1_050, key(10), key(11), true, 1_000_000_000, 10);
    let o = r.unwrap();
    assert_eq!(o.margin, 100_000_000);
    assert_eq!(
        o.position,
        UserPosition {
            owner: key(10),
            market: key(11),
            is_long: true,
            base_size: 95,
            entry_price_fp: 10_500_000,
            margin_deposited: 100_000_000,
            last_funding_settled: 1_050,
        }
    );
    assert_eq!(
        o.event,
        PositionOpened { user: key(10), market: key(11), is_long: true, base_size: 95, entry_price_fp: 10_500_000 }
    );
}

#[test]
fn open_short_position_negates_size() {
    let o = open_position(&config(), &skewed_market(), &oracle(10_000_000), 1_050, key(10), key(11), false, 1_000_000_000, 10)
        .unwrap();
    assert_eq!(o.position.base_size, -95);
    assert_eq!(o.event.base_size, 95);
    assert!(!o.position.is_long);
}

#[test]
fn open_refused_when_paused() {
    let mut c = config();
    c.paused = true;
    let r = open_position(&c, &skewed_market(), &oracle(10_000_000), 1_050, key(10), key(11), true, 1_000, 10);
    assert_eq!(r, Err(PerpsError::Unauthorized));
}

#[test]
fn open_refused_above_global_leverage() {
    let mut m = skewed_market();
    m.taker_leverage_cap_x = 100;
    let r = open_position(&config(), &m, &oracle(10_000_000), 1_050, key(10), key(11), true, 1_000, 41);
    assert_eq!(r, Err(PerpsError::LeverageTooHigh));
}

#[test]
fn open_refused_above_market_leverage() {
    let r = open_position(&config(), &skewed_market(), &oracle(10_000_000), 1_050, key(10), key(11), true, 1_000, 21);
    assert_eq!(r, Err(PerpsError::LeverageTooHigh));
}

#[test]
fn open_refused_above_max_size() {
    let mut m = skewed_market();
    m.max_position_base = 94;
    let r = open_position(&config(), &m, &oracle(10_000_000), 1_050, key(10), key(11), true, 1_000_000_000, 10);
    assert_eq!(r, Err(PerpsError::MaxPositionExceeded));
}

#[test]
fn open_refused_with_stale_oracle() {
    let r = open_position(&config(), &skewed_market(), &oracle(10_000_000), 5_000, key(10), key(11), true, 1_000, 10);
    assert_eq!(r, Err(PerpsError::BadOracle));
}

#[test]
fn open_zero_leverage_is_detected_as_a_panic() {
    assert!(!open_position_computable(&config(), &skewed_market(), &oracle(10_000_000), 1_050, true, 1_000, 0));
    assert!(open_position_computable(&config(), &skewed_market(), &oracle(10_000_000), 1_050, true, 1_000, 10));
    let mut c = config();
    c.paused = true;
    assert!(open_position_computable(&c, &skewed_market(), &oracle(10_000_000), 1_050, true, 1_000, 0));
}

#[test]
fn close_long_in_profit() {
    let mut p = position(95, 10_500_000, 100_000_000);
    let r = close_position(&config(), &balanced_market(), &oracle(11_000_000), &mut p, 1_000).unwrap();
    assert_eq!(r.to_user, 99_999_996);
    assert_eq!(r.to_fee_destination, 3);
    assert_eq!(r.event, PositionClosed { user: key(10), market: key(11), pnl_fp: 47, fees_fp: 3_135_000 });
    assert_eq!(p.base_size, 0);
    assert_eq!(p.margin_deposited, 0);
    assert_eq!(p.entry_price_fp, 10_500_000);
}

#[test]
fn close_short_at_a_loss() {
    let mut p = position(-95, 10_500_000, 100_000_000);
    let r = close_position(&config(), &balanced_market(), &oracle(11_000_000), &mut p, 1_000).unwrap();
    assert_eq!(r.event.pnl_fp, -47);
    assert_eq!(r.to_user, 99_999_996);
    assert_eq!(r.to_fee_destination, 3);
}

#[test]
fn close_settlement_is_floored_at_zero() {
    let mut p = position(1_000_000, 10_000_000, 5);
    let r = close_position(&config(), &balanced_market(), &oracle(2_000_000), &mut p, 1_000).unwrap();
    assert_eq!(r.event.pnl_fp, -8_000_000);
    assert_eq!(r.to_user, 0);
    assert_eq!(r.to_fee_destination, 6_000);
}

#[test]
fn close_at_entry_price_has_no_pnl() {
    let mut p = position(95, 11_000_000, 100_000_000);
    let r = close_position(&config(), &balanced_market(), &oracle(11_000_000), &mut p, 1_000).unwrap();
    assert_eq!(r.event.pnl_fp, 0);
}

#[test]
fn close_empty_position_refunds_margin() {
    let mut p = position(0, 11_000_000, 12_345);
    let r = close_position(&config(), &balanced_market(), &oracle(11_000_000), &mut p, 1_000).unwrap();
    assert_eq!((r.to_user, r.to_fee_destination, r.event.fees_fp), (12_345, 0, 0));
}

#[test]
fn close_with_stale_oracle_keeps_position() {
    let mut p = position(95, 10_500_000, 100_000_000);
    let before = p;
    let r = close_position(&config(), &balanced_market(), &oracle(11_000_000), &mut p, 2_000);
    assert_eq!(r, Err(PerpsError::BadOracle));
    assert_eq!(p, before);
}

#[test]
fn close_overflow_is_detected() {
    let p = position(i64::MAX, u128::MAX >> 1, 0);
    assert!(!close_position_computable(&config(), &balanced_market(), &oracle(11_000_000), &p, 1_000));
    let q = position(95, 10_500_000, 100_000_000);
    assert!(close_position_computable(&config(), &balanced_market(), &oracle(11_000_000), &q, 1_000));
}

#[test]
fn liquidate_underwater_long() {
    let mut p = position(1_000_000, 1_000_000_000, 500);
    let r = liquidate(&config(), &balanced_market(), &oracle(1_000_000), &mut p, 1_000);
    assert_eq!(
        r,
        Ok(Some(Liquidation {
            seized: 200,
            returned: 300,
            event: Liquidated { user: key(10), market: key(11), seized_collateral: 200 },
        }))
    );
    assert_eq!((p.base_size, p.margin_deposited), (0, 0));
}

#[test]
fn liquidate_underwater_short_seizes_all_margin() {
    let mut p = position(-1_000_000, 1_000_000, 500);
    let r = liquidate(&config(), &balanced_market(), &oracle(1_000_000_000), &mut p, 1_000).unwrap().unwrap();
    assert_eq!((r.seized, r.returned), (500, 0));
    assert_eq!((p.base_size, p.margin_deposited), (0, 0));
}

#[test]
fn healthy_position_is_not_liquidated() {
    let mut p = position(95, 10_500_000, 100_000_000);
    let before = p;
    assert_eq!(liquidate(&config(), &balanced_market(), &oracle(11_000_000), &mut p, 1_000), Ok(None));
    assert_eq!(p, before);
}

#[test]
fn closed_position_cannot_be_liquidated() {
    let mut p = position(1_000_000, 1_000_000_000, 500);
    close_position(&config(), &balanced_market(), &oracle(1_000_000), &mut p, 1_000).unwrap();
    assert_eq!(liquidate(&config(), &balanced_market(), &oracle(1_000_000), &mut p, 1_000), Ok(None));
}

#[test]
fn liquidate_with_stale_oracle_fails() {
    let mut p = position(1_000_000, 1_000_000_000, 500);
    let before = p;
    assert_eq!(liquidate(&config(), &balanced_market(), &oracle(1_000_000), &mut p, 9_999), Err(PerpsError::BadOracle));
    assert_eq!(p, before);
}

#[test]
fn liquidate_panics_are_detected() {
    let p = position(i64::MIN, 1, 0);
    assert!(!liquidate_computable(&config(), &balanced_market(), &oracle(1_000_000), &p, 1_000));
    let q = position(1_000_000, 1_000_000_000, 500);
    assert!(liquidate_computable(&config(), &balanced_market(), &oracle(1_000_000), &q, 1_000));
}

#[test]
fn sweep_takes_the_creator_share() {
    assert_eq!(sweep_creator_rewards(&config(), key(5), 1_000_000), Ok(25_000));
    assert_eq!(sweep_creator_rewards(&config(), key(5), 39), Ok(0));
}

#[test]
fn sweep_refuses_another_mint() {
    assert_eq!(sweep_creator_rewards(&config(), key(6), 1_000_000), Err(KeyCheckError::RequireKeysEqViolated));
}

#[test]
fn sweep_overflow_is_detected() {
    assert!(!sweep_creator_rewards_computable(&config(), key(5), u64::MAX));
    assert!(sweep_creator_rewards_computable(&config(), key(6), u64::MAX));
    assert!(sweep_creator_rewards_computable(&config(), key(5), 1_000));
}

#[test]
fn keys_compare_bytewise() {
    let mut a = [3u8; 32];
    assert!(Pubkey(a).same_as(&Pubkey([3u8; 32])));
    a[31] = 4;
    assert!(!Pubkey(a).same_as(&Pubkey([3u8; 32])));
}

#[test]
fn pause_blocks_opening_but_not_closing() {
    let mut c = config();
    pause(&mut c, true);
    let r = open_position(&c, &skewed_market(), &oracle(10_000_000), 1_050, key(10), key(11), true, 1_000_000_000, 10);
    assert_eq!(r, Err(PerpsError::Unauthorized));
    let mut p1 = position(95, 10_500_000, 100_000_000);
    let mut p2 = p1;
    let paused = close_position(&c, &balanced_market(), &oracle(11_000_000), &mut p1, 1_000);
    let unpaused = close_position(&config(), &balanced_market(), &oracle(11_000_000), &mut p2, 1_000);
    assert_eq!(paused, unpaused);
}

#[test]
fn open_then_close_at_same_price_returns_margin_less_fee() {
    let m = skewed_market();
    let o = open_position(&config(), &m, &oracle(10_000_000), 1_000, key(10), key(11), true, 1_000_000_000, 10).unwrap();
    let mut p = o.position;
    let c = close_position(&config(), &m, &oracle(10_000_000), &mut p, 1_010).unwrap();
    assert_eq!(c.event.pnl_fp, 0);
    // fee = 95 * 10_500_000 * 30 / 10_000 = 2_992_500
    assert_eq!(c.event.fees_fp, 2_992_500);
    assert_eq!(c.to_user, 99_999_997);
    assert!(c.to_user <= o.margin);
}

#[test]
fn liquidated_position_is_not_liquidated_again() {
    let mut p = position(1_000_000, 1_000_000_000, 500);
    assert!(liquidate(&config(), &balanced_market(), &oracle(1_000_000), &mut p, 1_000).unwrap().is_some());
    assert_eq!(liquidate(&config(), &balanced_market(), &oracle(1_000_000), &mut p, 1_000), Ok(None));
}

#[test]
fn liquidation_pays_out_the_whole_margin() {
    let mut p = position(1_000_000, 1_000_000_000, 777);
    let l = liquidate(&config(), &balanced_market(), &oracle(1_000_000), &mut p, 1_000).unwrap().unwrap();
    assert_eq!(l.seized + l.returned, 777);
    assert_eq!(l.seized, 200);
}
