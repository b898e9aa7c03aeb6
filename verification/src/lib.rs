//! A small client library for the Telegram Bot API: it loads the bot
//! configuration from TOML text, builds `sendMessage` requests (URL and JSON
//! body), classifies HTTP responses, and offers a fluent builder that resolves
//! a logical target (topic, chat + topic, or configured group) into a request.
//!
//! The library itself performs no I/O: an application layer reads the
//! configuration file, posts the requests this crate builds, and hands the
//! response status and body back for classification.

pub mod client;
pub mod config;
pub mod message;
pub mod text;

pub use crate::client::TelegramClient;
pub use crate::config::Config;
pub use crate::message::Telemon;
pub use crate::text::escape_markdown_v2;
