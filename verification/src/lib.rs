//! Group chat between a human and language-model personas.
//!
//! The crate holds the rules of the chat: how a reply grows chunk by chunk
//! and settles, how the room hands messages to its subscribers, and how an
//! agent decides after every message who speaks next.

pub mod chat;
pub mod llm;
pub mod model;
pub mod text;
pub mod ui;
