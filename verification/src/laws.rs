//! What holds of every walk, whatever the visitor.

pub mod observers;
pub mod order;
pub mod patterns;
pub mod recorded;
pub mod replay;
pub mod scopes;
pub mod types;
pub mod unchanged;
