//! The rows that conversations, their members and their messages are kept in.

pub mod conversation;
pub mod conversation_member;
pub mod message;
