//! The decision logic of a file-watching command runner: parse the command
//! line, validate the setup, debounce change notifications and keep exactly
//! one child process alive.

pub mod command;
pub mod notice;
pub mod paths;
pub mod plan;
pub mod supervisor;
pub mod templates;
pub mod tasks;
