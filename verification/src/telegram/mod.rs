//! What the bot exchanges with the chat platform.

pub mod client;
pub mod error;
pub mod json;
pub mod types;
