//! Telling the owner of the bot what it does.
pub mod telegram_notifier;
