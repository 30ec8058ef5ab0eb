pub mod admin;
pub mod create_market;
pub mod funding;
pub mod liquidate;
pub mod rewards;
pub mod trade;
