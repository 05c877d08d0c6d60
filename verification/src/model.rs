//! Data that describes the participants of a chat.

pub mod profile;
