//! The session-style local agent API: its message types, its errors and the table
//! of task results.

pub mod tracker;
pub mod types;
