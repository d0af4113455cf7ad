//! Decision logic and text rendering of a Telegram note-keeping bot.
//!
//! The library keeps the dialogue state of each user, decides what the bot
//! answers to every message and button press, renders notes, lists and
//! exports, and parses the dates that users type for reminders.  Storage,
//! the network and the clock stay outside: the caller performs the actions
//! that the library returns and hands back what they produced.

pub mod datetime;
pub mod handlers;
pub mod laws;
pub mod models;
pub mod queries;
pub mod text;
pub mod utils;
