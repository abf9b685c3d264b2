//! Placing orders and following what becomes of them.
pub mod api_secret;
pub mod client;
pub mod exchange_api;
pub mod order_executor;
pub mod order_signing;
pub mod post_fill_sell;
pub mod price_band;
pub mod spent;
pub mod status_poll;
pub mod submit_error;
pub mod submit_response;
