//! Small services.
pub mod logger;
pub mod paths;
pub mod time;
