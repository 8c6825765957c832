//! Exporting conversations.

pub mod markdown;
