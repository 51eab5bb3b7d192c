//! Structured views of a session's state: resource budget, call stack,
//! authorization tree and storage.

pub mod auth;
pub mod budget;
pub mod stack;
pub mod storage;

pub use auth::{AuthInspector, AuthNode};
pub use budget::BudgetInfo;
pub use stack::{CallFrame, CallStackInspector};
pub use storage::{StorageEntry, StorageFilter, StorageInspector};
