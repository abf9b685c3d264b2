//! What the bot learns from outside: markets, order books and prices.
pub mod binance;
pub mod chainlink_anchor;
pub mod market_discovery;
pub mod orderbook;
