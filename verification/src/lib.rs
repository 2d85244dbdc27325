//! Session controller of a terminal chat client for a language-model backend.
//!
//! The crate holds the rules of the client: which component owns the keyboard,
//! how a message is submitted and completed, how a transcript is written to and
//! read from the conversation store, and how a conversation gets its title.
//! Drawing, network and disk access are left to the program around it, which
//! feeds key presses and results in and carries the returned actions out.

pub mod config;
pub mod db_utils;
pub mod focus;
pub mod history;
pub mod input;
pub mod key;
pub mod language_model;
pub mod laws;
pub mod layout;
pub mod main_page;
pub mod message;
pub mod popup;
pub mod record;
pub mod session;
pub mod store;
pub mod text;
