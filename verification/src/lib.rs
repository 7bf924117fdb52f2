//! The decision logic of a chat bot that serves and stores attributed quotes:
//! command recognition, the grammar of the insertion command, reply texts and
//! an in-memory model of the quote table.

pub mod config;
pub mod grammar;
pub mod handler;
pub mod help;
pub mod quote;
pub mod table;
pub mod text;
