//! Requests, responses and errors of the session-style local agent API.

use vstd::prelude::*;

verus! {

/// A request to start a session of an agent, with its configuration as JSON.
#[derive(Debug, Clone)]
pub struct StartSessionRequest {
    pub agent_id: String,
    pub config: Option<serde_json::Value>,
}

/// A response to starting a session.
#[derive(Debug, PartialEq, Eq)]
pub struct StartSessionResponse {
    pub session_id: String,
    pub status: String,
}

/// A request to send a message to a session, with metadata as JSON.
#[derive(Debug, Clone)]
pub struct SendMessageRequest {
    pub session_id: String,
    pub message: String,
    pub metadata: Option<serde_json::Value>,
}

/// A response to sending a message to a session.
#[derive(Debug, PartialEq, Eq)]
pub struct SendMessageResponse {
    pub session_id: String,
    pub message_id: String,
    pub status: String,
}

impl Clone for SendMessageResponse {
    fn clone(&self) -> (r: Self)
        ensures
            r == *self,
    {
        SendMessageResponse {
            session_id: self.session_id.clone(),
            message_id: self.message_id.clone(),
            status: self.status.clone(),
        }
    }
}

/// A request to stop a session.
#[derive(Debug, PartialEq, Eq)]
pub struct StopSessionRequest {
    pub session_id: String,
}

/// A response to stopping a session.
#[derive(Debug, PartialEq, Eq)]
pub struct StopSessionResponse {
    pub session_id: String,
    pub status: String,
}

/// An error of the session-style API.
#[derive(Debug, PartialEq, Eq)]
pub enum LocalAgentApiError {
    InvalidRequest(String),
    SessionNotFound(String),
    AgentNotFound(String),
    InternalError(String),
    Timeout,
}

/// The text that describes an error to a person.
pub open spec fn display_text(e: LocalAgentApiError) -> Seq<char> {
    match e {
        LocalAgentApiError::InvalidRequest(m) => "Invalid request: "@ + m@,
        LocalAgentApiError::SessionNotFound(m) => "Session not found: "@ + m@,
        LocalAgentApiError::AgentNotFound(m) => "Agent not found: "@ + m@,
        LocalAgentApiError::InternalError(m) => "Internal error: "@ + m@,
        LocalAgentApiError::Timeout => "Request timeout"@,
    }
}

impl LocalAgentApiError {
    /// The text that describes the error to a person.
    pub fn to_display_string(&self) -> (r: String)
        ensures
            r@ == display_text(*self),
    {
        match self {
            LocalAgentApiError::InvalidRequest(m) => String::from_str("Invalid request: ").concat(m.as_str()),
            LocalAgentApiError::SessionNotFound(m) => String::from_str("Session not found: ").concat(m.as_str()),
            LocalAgentApiError::AgentNotFound(m) => String::from_str("Agent not found: ").concat(m.as_str()),
            LocalAgentApiError::InternalError(m) => String::from_str("Internal error: ").concat(m.as_str()),
            LocalAgentApiError::Timeout => String::from_str("Request timeout"),
        }
    }
}

} // verus!
