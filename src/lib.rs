//! A terminal messaging client: contact directory, phone-number formatting,
//! and the state machines behind the chat, contacts and setup views.
pub mod chat;
pub mod cli;
pub mod config;
pub mod contacts;
pub mod error;
pub mod formatter;
pub mod keys;
pub mod message;
pub mod resolve;
pub mod sender;
pub mod setup;
pub mod text;
