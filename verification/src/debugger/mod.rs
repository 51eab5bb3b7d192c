//! The breakpoint-driven execution engine.

pub mod engine;

pub use engine::{DebuggerEngine, Decision, EngineAction, EngineEvent, EngineModel, EngineState};
