//! The chat itself: messages, the room that fans them out and the agent that
//! takes turns in it.

pub mod content;
pub mod message;
pub mod plan_agent;
pub mod prompt;
pub mod room;
