//! Agent tools: the execution context a tool call sees, the portable facts drawn
//! from it, and the product tools that a provider plan can name.

pub mod context;
pub mod providers;
