//! Settling trades: what they came to, and claiming what they won.
pub mod result_resolver;
pub mod settlement_service;
