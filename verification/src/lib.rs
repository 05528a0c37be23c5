//! A paper-trading signal engine over a stream of market ticks.
//!
//! The library keeps a rolling window of per-tick buy/sell volumes and
//! prices, derives an order-flow-imbalance estimate from it, combines that
//! with a Monte Carlo price-path simulation into a directional signal, and
//! tracks hypothetical profit/loss in a virtual wallet.
//!
//! All quantities that the market reports as decimal numbers (prices,
//! volumes, currency amounts, percentages) are carried as fixed-point
//! integers with five decimal places; see [`fixed`].

pub mod analysis;
pub mod engine;
pub mod fixed;
pub mod logger;
pub mod model;
pub mod news_filter;
pub mod simulator;
