//! A small chat bot: it recognises the `/help` and `/start <username>`
//! commands in incoming message text and works out the reply to send back.

pub mod command;
pub mod help;
pub mod laws;
pub mod reply;
pub mod text;
