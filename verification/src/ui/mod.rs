//! Text rendering for the debugger's front end.

pub mod formatter;

pub use formatter::Formatter;
