use bitfun_logic::local_agent::types::{
    DetailValue, LocalAgentApiError, LocalAgentErrorCode, SessionCandidate,
};

#[test]
fn api_error_response_carries_stable_code_and_message() {
    let error = LocalAgentApiError::invalid_request("message is required".to_string());
    let body = error.to_error_response();

    assert_eq!(body.error.code.as_str(), "INVALID_REQUEST");
    assert_eq!(body.error.message, "message is required");
}

#[test]
fn error_codes_have_stable_texts() {
    let all = [
        (LocalAgentErrorCode::Unauthorized, "UNAUTHORIZED"),
        (LocalAgentErrorCode::InvalidRequest, "INVALID_REQUEST"),
        (LocalAgentErrorCode::SessionNotFound, "SESSION_NOT_FOUND"),
        (LocalAgentErrorCode::SessionNameAmbiguous, "SESSION_NAME_AMBIGUOUS"),
        (LocalAgentErrorCode::SessionMismatch, "SESSION_MISMATCH"),
        (LocalAgentErrorCode::SubmitFailed, "SUBMIT_FAILED"),
        (LocalAgentErrorCode::TaskNotFound, "TASK_NOT_FOUND"),
        (LocalAgentErrorCode::InternalError, "INTERNAL_ERROR"),
    ];
    for (code, text) in all {
        assert_eq!(code.as_str(), text);
    }
}

fn candidate(id: &str) -> SessionCandidate {
    SessionCandidate {
        session_id: id.to_string(),
        session_name: "W".to_string(),
        agent_type: "A".to_string(),
        created_at: 7,
    }
}

#[test]
fn with_detail_replaces_a_key_in_place_and_appends_new_keys() {
    let error = LocalAgentApiError::new(LocalAgentErrorCode::InternalError, "x".to_string())
        .with_detail("a".to_string(), DetailValue::Candidates(vec![candidate("1")]))
        .with_detail("b".to_string(), DetailValue::Candidates(vec![]))
        .with_detail("a".to_string(), DetailValue::Candidates(vec![candidate("2"), candidate("3")]));
    assert_eq!(error.details.len(), 2);
    assert_eq!(error.details[0].key, "a");
    assert_eq!(error.details[0].value, DetailValue::Candidates(vec![candidate("2"), candidate("3")]));
    assert_eq!(error.details[1].key, "b");
    let copy = error.to_error_response();
    assert_eq!(copy.error, error);
}

#[test]
fn error_codes_read_back_from_their_wire_text() {
    for code in [
        LocalAgentErrorCode::Unauthorized,
        LocalAgentErrorCode::InvalidRequest,
        LocalAgentErrorCode::SessionNotFound,
        LocalAgentErrorCode::SessionNameAmbiguous,
        LocalAgentErrorCode::SessionMismatch,
        LocalAgentErrorCode::SubmitFailed,
        LocalAgentErrorCode::TaskNotFound,
        LocalAgentErrorCode::InternalError,
    ] {
        assert_eq!(LocalAgentErrorCode::from_wire_text(code.as_str()), Some(code));
    }
    assert_eq!(LocalAgentErrorCode::from_wire_text("TASK_NOT_FOUND"), Some(LocalAgentErrorCode::TaskNotFound));
    assert_eq!(LocalAgentErrorCode::from_wire_text("task_not_found"), None);
    assert_eq!(LocalAgentErrorCode::from_wire_text(""), None);
}
