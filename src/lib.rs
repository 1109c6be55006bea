//! A small command dispatcher: handlers are registered under command names,
//! and a line of text is split on whitespace and routed to the handler named
//! by its first token.

pub mod laws;
pub mod parser;
pub mod tokens;

pub use parser::{CommandParser, DispatchError, DuplicateCommand};
pub use tokens::split_tokens;
