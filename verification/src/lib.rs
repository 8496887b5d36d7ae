//! The core of an interactive command shell: splitting a line into words,
//! the command grammar, the dispatcher, the HTTP action, the prompt updates
//! and the read loop's state machine, each with its contract.

pub mod action;
pub mod command;
pub mod dispatch;
pub mod grammar;
pub mod http;
pub mod prompt;
pub mod session;
pub mod words;
