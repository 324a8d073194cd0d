//! A small chat transcript library: a message store that assigns each
//! appended message a unique, strictly increasing identifier, and a view
//! binding that mirrors the transcript into a render-visible list keyed by
//! those identifiers.

pub mod chat_ctx;
pub mod view_binding;
