//! Core of a desktop client for a chat-completion service: the streaming
//! session controller, the conversation store, and the small pure helpers
//! around them.

pub mod api;
pub mod chat;
pub mod config;
pub mod db;
pub mod export;
pub mod text;
pub mod time;
