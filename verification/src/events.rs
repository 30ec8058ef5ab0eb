//! Events the program emits.
use vstd::prelude::*;
use crate::state::Pubkey;

verus! {

#[derive(Debug, Clone, Copy, PartialEq, Eq)]
pub struct PositionOpened {
    pub user: Pubkey,
    pub market: Pubkey,
    pub is_long: bool,
    pub base_size: u64,
    pub entry_price_fp: u128,
}

#[derive(Debug, Clone, Copy, PartialEq, Eq)]
pub struct PositionClosed {
    pub user: Pubkey,
    pub market: Pubkey,
    pub pnl_fp: i128,
    pub fees_fp: u128,
}

#[derive(Debug, Clone, Copy, PartialEq, Eq)]
pub struct Liquidated {
    pub user: Pubkey,
    pub market: Pubkey,
    pub seized_collateral: u64,
}

} // verus!
