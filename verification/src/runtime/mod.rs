//! What a session accepts from its caller before anything runs.

pub mod input;
pub mod session;

pub use input::JsonShape;
pub use session::ExecutionSession;
