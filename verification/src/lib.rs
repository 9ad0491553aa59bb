//! Conversational core of a personal expense tracking chat bot.
//!
//! For each inbound message the library decides which dialog the user is in,
//! applies the message to the current step, updates the store and computes
//! the reply. Transport and durable storage live outside of it.

pub mod bot;
pub mod store;
pub mod telegram;
pub mod text;
