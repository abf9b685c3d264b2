//! The account on the chain: how it is reached and how it claims.
pub mod polygon_provider;
pub mod relayer_service;
