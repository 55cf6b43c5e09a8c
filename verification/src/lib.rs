//! The rules of a collateralized lending market: fixed-point amounts,
//! validated configuration, the accounts of each lending pool, debt
//! positions with delegation, the health check that guards them, and the
//! market that ties them together.
//!
//! The rules decide and keep account; they do not touch the ledger. Each
//! operation takes what its caller read from the clock, the price feed and
//! the pools, and returns what the caller has to move.

pub mod assets;
pub mod cdp_data;
pub mod cdp_health_checker;
pub mod decimal;
pub mod interest_strategy;
pub mod lending_market;
pub mod liquidation_threshold;
pub mod market_config;
pub mod operation_status;
pub mod pool_config;
pub mod pool_state;
pub mod position_maps;
pub mod precise_decimal;
pub mod price_feed;
pub mod ratio_table;
pub mod resources;
pub mod unit_map;
pub mod utils;
