//! The chat-completion exchange: wire records and the streaming session.

pub mod chat;
pub mod replay;
pub mod stream;
