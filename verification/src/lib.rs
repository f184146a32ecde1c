//! The command execution engine of a small interactive shell.

pub mod builtins;
pub mod common;
pub mod eval;
pub mod exec;
pub mod fds;
pub mod handlers;
pub mod parser;
pub mod pipes;
pub mod redirect;
pub mod roundtrip;
pub mod state;
pub mod sys;
pub mod text;
pub mod trace;
