//! The core of a small interactive shell: reading a command line into a
//! command name and arguments, deciding which command it names, and what each
//! builtin command writes.
pub mod commands;
pub mod execution;
pub mod executor;
pub mod finder;
pub mod parser;
pub mod text;
