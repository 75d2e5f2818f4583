use bitfun_logic::session_api::tracker::TaskResultTracker;
use bitfun_logic::session_api::types::{LocalAgentApiError, SendMessageResponse};

#[test]
fn test_tracker_new() {
    let tracker = TaskResultTracker::new();
    assert!(tracker.is_empty());
    assert_eq!(tracker.len(), 0);
}

#[test]
fn test_tracker_store_and_get_result() {
    let mut tracker = TaskResultTracker::new();
    let task_id = "task-123".to_string();
    let result = SendMessageResponse {
        session_id: "session-456".to_string(),
        message_id: "msg-789".to_string(),
        status: "completed".to_string(),
    };

    tracker.store_result(task_id.clone(), result.clone());

    let retrieved = tracker.get_result(&task_id).unwrap();
    assert_eq!(retrieved, result);
}

#[test]
fn test_tracker_get_nonexistent_result() {
    let tracker = TaskResultTracker::new();
    let task_id = "nonexistent";

    let error = tracker.get_result(task_id).unwrap_err();
    assert!(matches!(error, LocalAgentApiError::SessionNotFound(_)));
}

#[test]
fn test_tracker_remove_result() {
    let mut tracker = TaskResultTracker::new();
    let task_id = "task-123".to_string();
    let result = SendMessageResponse {
        session_id: "session-456".to_string(),
        message_id: "msg-789".to_string(),
        status: "completed".to_string(),
    };

    tracker.store_result(task_id.clone(), result.clone());

    let removed = tracker.remove_result(&task_id);
    assert!(removed.is_some());
    assert_eq!(removed.unwrap(), result);

    let error = tracker.get_result(&task_id).unwrap_err();
    assert!(matches!(error, LocalAgentApiError::SessionNotFound(_)));

    let removed_again = tracker.remove_result(&task_id);
    assert!(removed_again.is_none());
}

#[test]
fn test_tracker_clear() {
    let mut tracker = TaskResultTracker::new();
    let task_id1 = "task-123".to_string();
    let task_id2 = "task-456".to_string();
    let result1 = SendMessageResponse {
        session_id: "session-456".to_string(),
        message_id: "msg-789".to_string(),
        status: "completed".to_string(),
    };
    let result2 = SendMessageResponse {
        session_id: "session-789".to_string(),
        message_id: "msg-012".to_string(),
        status: "failed".to_string(),
    };

    tracker.store_result(task_id1.clone(), result1.clone());
    tracker.store_result(task_id2.clone(), result2.clone());

    assert_eq!(tracker.len(), 2);
    assert!(!tracker.is_empty());

    tracker.clear();

    assert_eq!(tracker.len(), 0);
    assert!(tracker.is_empty());

    let error1 = tracker.get_result(&task_id1).unwrap_err();
    let error2 = tracker.get_result(&task_id2).unwrap_err();
    assert!(matches!(error1, LocalAgentApiError::SessionNotFound(_)));
    assert!(matches!(error2, LocalAgentApiError::SessionNotFound(_)));
}

#[test]
fn test_tracker_clone() {
    let mut tracker1 = TaskResultTracker::new();
    let task_id = "task-123".to_string();
    let result = SendMessageResponse {
        session_id: "session-456".to_string(),
        message_id: "msg-789".to_string(),
        status: "completed".to_string(),
    };

    tracker1.store_result(task_id.clone(), result.clone());

    let tracker2 = tracker1.clone();

    assert_eq!(tracker1.get_result(&task_id).unwrap(), result);
    assert_eq!(tracker2.get_result(&task_id).unwrap(), result);
}

#[test]
fn test_local_agent_api_error_display() {
    let error = LocalAgentApiError::InvalidRequest("test error".to_string());
    assert_eq!(error.to_display_string(), "Invalid request: test error");

    let error = LocalAgentApiError::SessionNotFound("session not found".to_string());
    assert_eq!(error.to_display_string(), "Session not found: session not found");

    let error = LocalAgentApiError::AgentNotFound("agent not found".to_string());
    assert_eq!(error.to_display_string(), "Agent not found: agent not found");

    let error = LocalAgentApiError::InternalError("internal error".to_string());
    assert_eq!(error.to_display_string(), "Internal error: internal error");

    let error = LocalAgentApiError::Timeout;
    assert_eq!(error.to_display_string(), "Request timeout");
}

#[test]
fn missing_result_error_names_the_task() {
    let tracker = TaskResultTracker::new();
    match tracker.get_result("t-1").unwrap_err() {
        LocalAgentApiError::SessionNotFound(m) => assert_eq!(m, "Task result not found for ID: t-1"),
        other => panic!("unexpected {:?}", other),
    }
}

#[test]
fn storing_twice_keeps_one_entry_with_the_last_result() {
    let mut tracker = TaskResultTracker::new();
    let first = SendMessageResponse {
        session_id: "s".to_string(),
        message_id: "m1".to_string(),
        status: "sent".to_string(),
    };
    let second = SendMessageResponse { message_id: "m2".to_string(), ..first.clone() };
    tracker.store_result("t".to_string(), first);
    tracker.store_result("t".to_string(), second.clone());
    assert_eq!(tracker.len(), 1);
    assert_eq!(tracker.get_result("t").unwrap(), second);
    let copy = tracker.clone();
    tracker.clear();
    assert_eq!(copy.len(), 1);
}

#[test]
fn requests_carry_their_json_fields() {
    let mut config = serde_json::Map::new();
    config.insert("model".to_string(), serde_json::Value::String("fast".to_string()));
    let start = bitfun_logic::session_api::types::StartSessionRequest {
        agent_id: "agent-1".to_string(),
        config: Some(serde_json::Value::Object(config)),
    };
    let copy = start.clone();
    assert_eq!(copy.agent_id, "agent-1");
    assert_eq!(copy.config.unwrap()["model"], serde_json::Value::String("fast".to_string()));
    let send = bitfun_logic::session_api::types::SendMessageRequest {
        session_id: "s".to_string(),
        message: "hi".to_string(),
        metadata: None,
    };
    assert_eq!(send.clone().message, "hi");
    assert!(send.metadata.is_none());
}
