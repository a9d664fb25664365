//! A verified core for a conversational-script interpreter: the syntax tree of
//! scripts, the evaluation of conditions, the rendering of blocks into
//! messages, and the small pure helpers that sit around the bot store.
pub mod ast;
pub mod ast_interpreter;
pub mod builtins;
pub mod event;
pub mod message;
pub mod text;
pub mod configuration;
pub mod error_format;
pub mod tools;
pub mod bot_store;
pub mod laws;
