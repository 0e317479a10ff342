//! Beta endpoints: chat prefix completion and fill-in-the-middle completion.
pub mod chat;
pub mod fim;
