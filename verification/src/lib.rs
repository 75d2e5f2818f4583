//! Request handling, task tracking and storage layout for the BitFun local agent API.

pub mod clock;
pub mod git_agent;
pub mod ids;
pub mod laws;
pub mod local_agent;
pub mod miniapp;
pub mod paths;
pub mod review_platform;
pub mod session_api;
pub mod text;
pub mod tools;
