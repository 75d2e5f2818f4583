//! The local agent API: request and response types, the task tracker, request
//! validation and session resolution, and authorization of HTTP requests.

pub mod types;
pub mod tracker;
pub mod service;
pub mod auth;
pub mod http;
