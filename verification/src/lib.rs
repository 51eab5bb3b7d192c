//! Instrumentation and analysis layer of a debugger for metered smart-contract
//! modules: aggregate statistics over repeated runs, the breakpoint state
//! machine, and the inspectors that turn host state into plain records.

pub mod cli;
pub mod debugger;
pub mod error;
pub mod inspector;
pub mod repeat;
pub mod runtime;
pub mod text;
pub mod ui;
pub mod upgrade;
