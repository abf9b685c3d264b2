//! The core of a bot that trades the five-minute up-or-down markets of Polymarket: what it decides,
//! computes, checks and writes down. The clock's ticking, the network, the files and the chain are
//! the program's around it.
pub mod account;
pub mod config;
pub mod data;
pub mod double;
pub mod execution;
pub mod failure;
pub mod json;
pub mod notifications;
pub mod orchestrator;
pub mod settlement;
pub mod storage;
pub mod table;
pub mod text;
pub mod types;
pub mod uint;
pub mod utils;
