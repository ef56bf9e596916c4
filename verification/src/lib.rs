//! Backend logic of a desktop document reader: rendering untrusted Markdown
//! into safe HTML, and the rules for the small pieces of state that the reader
//! keeps between sessions.

pub mod commands;
pub mod config;
pub mod markdown;
pub mod progress;
pub mod store;
pub mod text;
