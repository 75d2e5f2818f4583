use bitfun_logic::clock::Timestamp;
use bitfun_logic::local_agent::service::{
    candidate_from_summary, resolve_session_from_summaries, resolve_timeout_ms,
    task_run_response_from_query, validate_task_request, LocalAgentApiService, SessionSummary,
};
use bitfun_logic::local_agent::tracker::{TaskResultTracker, TurnOutcome};
use bitfun_logic::local_agent::types::{
    DetailValue, LocalAgentErrorCode, LocalAgentTaskStatus, TaskQueryResponse, TaskRunRequest,
};

fn request(session_id: Option<&str>, session_name: Option<&str>) -> TaskRunRequest {
    TaskRunRequest {
        session_id: session_id.map(str::to_string),
        session_name: session_name.map(str::to_string),
        workspace_path: "D:\\BitFun".to_string(),
        message: "Do work".to_string(),
        agent_type: None,
        timeout_ms: Some(1000),
    }
}

fn summary(id: &str, name: &str, agent: &str, secs: u128) -> SessionSummary {
    SessionSummary {
        session_id: id.to_string(),
        session_name: name.to_string(),
        agent_type: agent.to_string(),
        created_at: Timestamp { before_epoch: false, nanos: secs * 1_000_000_000 + 5 },
    }
}

#[test]
fn validate_rejects_missing_session_identifier() {
    let error = validate_task_request(&request(None, None)).expect_err("must fail");
    assert_eq!(error.code, LocalAgentErrorCode::InvalidRequest);
    assert_eq!(error.message, "sessionId or sessionName is required");
}

#[test]
fn validate_rejects_empty_message() {
    let mut req = request(Some("session-1"), None);
    req.message = "   ".to_string();
    let error = validate_task_request(&req).expect_err("must fail");
    assert_eq!(error.message, "message is required");
}

#[test]
fn validate_accepts_session_name_request() {
    validate_task_request(&request(None, Some("Worker"))).expect("valid request");
}

#[test]
fn validate_rejects_blank_identifiers_and_workspace() {
    let error = validate_task_request(&request(Some(" \t"), Some("\u{3000}"))).unwrap_err();
    assert_eq!(error.message, "sessionId or sessionName is required");
    let mut req = request(Some("s"), None);
    req.workspace_path = "\n".to_string();
    assert_eq!(validate_task_request(&req).unwrap_err().message, "workspacePath is required");
}

#[test]
fn timeout_is_defaulted_and_clamped() {
    assert_eq!(resolve_timeout_ms(None), 600_000);
    assert_eq!(resolve_timeout_ms(Some(0)), 1);
    assert_eq!(resolve_timeout_ms(Some(1000)), 1000);
    assert_eq!(resolve_timeout_ms(Some(u64::MAX)), 3_600_000);
}

#[test]
fn candidate_uses_whole_seconds_since_epoch() {
    let c = candidate_from_summary(&summary("a", "n", "Agentic", 1_700_000_000));
    assert_eq!(c.created_at, 1_700_000_000);
    let mut before = summary("a", "n", "Agentic", 1);
    before.created_at = Timestamp { before_epoch: true, nanos: 5_000_000_000 };
    assert_eq!(candidate_from_summary(&before).created_at, 0);
}

#[test]
fn session_id_resolves_first_match_and_checks_name() {
    let sessions = vec![
        summary("s1", "Worker", "Agentic", 1),
        summary("s2", "Other", "Plan", 2),
        summary("s2", "Dup", "Debug", 3),
    ];
    let r = resolve_session_from_summaries(&sessions, &request(Some(" s2 "), None)).unwrap();
    assert_eq!(r.session_id, "s2");
    assert_eq!(r.session_name, "Other");
    assert_eq!(r.agent_type, "Plan");

    let e = resolve_session_from_summaries(&sessions, &request(Some("s2"), Some("Worker"))).unwrap_err();
    assert_eq!(e.code, LocalAgentErrorCode::SessionMismatch);
    assert_eq!(e.message, "sessionId and sessionName do not refer to the same session");

    let e = resolve_session_from_summaries(&sessions, &request(Some("s9"), Some("Worker"))).unwrap_err();
    assert_eq!(e.code, LocalAgentErrorCode::SessionNotFound);
    assert_eq!(e.message, "sessionId 's9' was not found");
}

#[test]
fn session_name_must_match_exactly_one_session() {
    let sessions = vec![
        summary("s1", "Worker", "Agentic", 10),
        summary("s2", "Solo", "Plan", 20),
        summary("s3", "Worker", "Debug", 30),
    ];
    let r = resolve_session_from_summaries(&sessions, &request(None, Some("Solo"))).unwrap();
    assert_eq!(r.session_id, "s2");

    let e = resolve_session_from_summaries(&sessions, &request(None, Some("Nobody"))).unwrap_err();
    assert_eq!(e.code, LocalAgentErrorCode::SessionNotFound);
    assert_eq!(e.message, "sessionName 'Nobody' was not found");

    let e = resolve_session_from_summaries(&sessions, &request(None, Some("Worker"))).unwrap_err();
    assert_eq!(e.code, LocalAgentErrorCode::SessionNameAmbiguous);
    assert_eq!(e.message, "multiple sessions match sessionName in this workspace");
    assert_eq!(e.details.len(), 1);
    assert_eq!(e.details[0].key, "candidates");
    let DetailValue::Candidates(c) = &e.details[0].value;
    assert_eq!(c.len(), 2);
    assert_eq!(c[0].session_id, "s1");
    assert_eq!(c[0].created_at, 10);
    assert_eq!(c[1].session_id, "s3");
    assert_eq!(c[1].agent_type, "Debug");
}

#[test]
fn run_response_marks_running_turns_as_timed_out() {
    let query = TaskQueryResponse {
        status: LocalAgentTaskStatus::Running,
        session_id: None,
        session_name: Some("W".to_string()),
        turn_id: "t".to_string(),
        final_response: None,
        error: None,
    };
    let r = task_run_response_from_query(query.clone(), true);
    assert!(r.timed_out);
    assert_eq!(r.session_id, "");
    assert_eq!(r.session_name, "W");
    assert!(!task_run_response_from_query(query, false).timed_out);
}

#[test]
fn run_steps_register_and_finish_a_turn() {
    let mut service = LocalAgentApiService::new(TaskResultTracker::default());
    let mut req = request(None, Some("Worker"));
    req.agent_type = Some("  ".to_string());
    req.workspace_path = "  /repo  ".to_string();
    assert_eq!(LocalAgentApiService::start_run(&req).unwrap(), "/repo");

    let listed = Ok(vec![summary("s1", "Worker", "Agentic", 1)]);
    let sub = service.accept_sessions(&req, listed).unwrap();
    assert_eq!(sub.session_id, "s1");
    assert_eq!(sub.agent_type, "Agentic");
    assert_eq!(sub.timeout_ms, 1000);
    assert_eq!(sub.workspace_path, "  /repo  ");
    assert!(sub.turn_id.starts_with("local-agent-"));
    assert_eq!(sub.turn_id.len(), 48);
    assert_eq!(service.query_task(&sub.turn_id).status, LocalAgentTaskStatus::Running);

    assert!(LocalAgentApiService::after_submit(Ok(())).is_ok());
    let e = LocalAgentApiService::after_submit(Err("queue full".to_string())).unwrap_err();
    assert_eq!(e.code, LocalAgentErrorCode::SubmitFailed);
    assert_eq!(e.message, "queue full");

    let timed_out = service.finish_run(&sub.turn_id, None);
    assert!(timed_out.timed_out);
    assert_eq!(timed_out.status, LocalAgentTaskStatus::Running);

    service.tracker.record_outcome(
        "s1",
        TurnOutcome::Completed { turn_id: sub.turn_id.clone(), final_response: "ok".to_string() },
    );
    let done = service.finish_run(&sub.turn_id, service.tracker.settled(&sub.turn_id));
    assert!(!done.timed_out);
    assert_eq!(done.final_response.as_deref(), Some("ok"));
    assert_eq!(done.session_name, "Worker");
}

#[test]
fn run_steps_refuse_bad_listings_without_registering() {
    let mut service = LocalAgentApiService::new(TaskResultTracker::default());
    let mut req = request(Some("s1"), None);
    req.agent_type = Some(" Plan ".to_string());
    let e = service
        .accept_sessions_at(&req, Err("disk".to_string()), "turn-x".to_string(), Timestamp::now())
        .unwrap_err();
    assert_eq!(e.code, LocalAgentErrorCode::InternalError);
    assert_eq!(e.message, "disk");
    assert_eq!(service.query_task("turn-x").status, LocalAgentTaskStatus::NotFound);

    let e = service
        .accept_sessions_at(&req, Ok(vec![]), "turn-x".to_string(), Timestamp::now())
        .unwrap_err();
    assert_eq!(e.code, LocalAgentErrorCode::SessionNotFound);

    let sub = service
        .accept_sessions_at(&req, Ok(vec![summary("s1", "W", "Agentic", 1)]), "turn-x".to_string(), Timestamp::now())
        .unwrap();
    assert_eq!(sub.agent_type, "Plan");
    assert_eq!(sub.turn_id, "turn-x");
    let missing = service.finish_run("nope", None);
    assert_eq!(missing.status, LocalAgentTaskStatus::NotFound);
    assert!(!missing.timed_out);
}
