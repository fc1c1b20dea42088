//! Decision and formatting logic of a Telegram bot that keeps an eye on
//! player shops of a game market: it parses chat commands, decides what to
//! do with registered sales when the market changes, and renders replies.
pub mod error;

pub mod text;
pub mod db;
pub mod pattern;
pub mod bot;
pub mod sale;
pub mod cache;
