//! Control-plane messages of the streaming protocol and their validation.

pub mod envelope;
pub mod error;
pub mod messages;
pub mod types;
