//! Streaming response decoding and conversation history for a hosted
//! chat-completion service.

pub mod completion;
pub mod converse;
pub mod decoder;
pub mod err;
pub mod json;
pub mod laws;
pub mod payload;
pub mod persist;
pub mod types;
