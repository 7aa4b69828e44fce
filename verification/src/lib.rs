//! Generation and formatting of universally unique identifiers for a
//! command-line tool: which of two conflicting format flags wins, how an
//! identifier is rendered, and how the tool's options are bound.

pub mod binder;
pub mod cli;
pub mod identifier;
pub mod messages;
pub mod precedence;
pub mod tool;
pub mod version;
