//! Core of a terminal chat client that talks to streaming chat-completion
//! backends: request construction, event-stream decoding, error
//! classification, and the conversation log that the surrounding user
//! interface renders.

pub mod ai_models;
pub mod aliyun;
pub mod deepseek;
pub mod conversation;
pub mod i18n;
pub mod json;
pub mod sse;
pub mod text;
