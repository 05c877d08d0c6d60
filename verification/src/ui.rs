//! What a front end of the chat shows and sends.

pub mod cli_ui;
