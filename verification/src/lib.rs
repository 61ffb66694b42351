//! A remote control for the host's media keys: a closed set of commands, their
//! transport tags, the key each one strikes, and the dispatcher that strikes it
//! through the host's input-injection channel.

pub mod command;
pub mod dispatch;
pub mod error;
pub mod host;
pub mod keys;
pub mod text;
