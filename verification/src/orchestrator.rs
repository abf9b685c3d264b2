//! What the bot does when: its rounds, its cycles and its claims.
pub mod claims;
pub mod cycle;
pub mod cycle_run;
pub mod messages;
pub mod rounds;
