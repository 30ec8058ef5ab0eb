//! Account state of the program and its fixed-point constants.
use vstd::prelude::*;

verus! {

/// Fixed-point scale: a price or amount `x` is stored as `x * FP`.
pub const FP: u128 = 1_000_000;

/// Highest leverage a taker may ever use.
pub const MAX_LEVERAGE_X: u64 = 40;

/// A 32-byte account address.
#[derive(Debug, Clone, Copy, PartialEq, Eq)]
pub struct Pubkey(pub [u8; 32]);

impl Pubkey {
    /// Whether two addresses are byte for byte the same.
    pub fn same_as(&self, other: &Pubkey) -> (r: bool)
        ensures
            r == (self.0@ == other.0@),
    {
        let mut i: usize = 0;
        while i < 32
            invariant
                0 <= i <= 32,
                forall|j: int| 0 <= j < i ==> self.0@[j] == other.0@[j],
            decreases 32 - i,
        {
            if self.0[i] != other.0[i] {
                return false;
            }
            i = i + 1;
        }
        assert(self.0@ =~= other.0@);
        true
    }
}

/// Program-wide configuration.
#[derive(Debug, Clone, Copy, PartialEq, Eq)]
pub struct Config {
    pub admin: Pubkey,
    pub quote_mint: Pubkey,
    pub fee_bps: u16,
    pub liq_fee_bps: u16,
    /// Token account that receives trading and liquidation fees.
    pub fee_destination: Pubkey,
    pub insurance_vault: Pubkey,
    pub creator_reward_mint: Pubkey,
    pub creator_reward_bps: u16,
    pub paused: bool,
}

/// One perpetual market, priced from an oracle index skewed by a virtual AMM.
#[derive(Debug, Clone, Copy, PartialEq, Eq)]
pub struct Market {
    pub symbol: [u8; 12],
    pub base_decimals: u8,
    pub oracle: Pubkey,
    pub amm_base_reserve_fp: u128,
    pub amm_quote_reserve_fp: u128,
    pub funding_rate_fp: i128,
    pub last_funding_ts: i64,
    pub skew_k_bps: u32,
    pub max_position_base: u64,
    pub maintenance_margin_bps: u16,
    pub taker_leverage_cap_x: u16,
}

/// A user's position in one market.
#[derive(Debug, Clone, Copy, PartialEq, Eq)]
pub struct UserPosition {
    pub owner: Pubkey,
    pub market: Pubkey,
    pub is_long: bool,
    /// Signed size in base units: positive for a long, negative for a short.
    pub base_size: i64,
    pub entry_price_fp: u128,
    pub margin_deposited: u64,
    pub last_funding_settled: i64,
}

/// An oracle's latest index price.
#[derive(Debug, Clone, Copy, PartialEq, Eq)]
pub struct OraclePrice {
    pub price_fp: u128,
    pub last_updated_ts: i64,
}

} // verus!
