use bitfun_logic::git_agent::{AIAnalysisService, AgentErrorKind, DiffPlan, MAX_DIFF_CHARS};
use bitfun_logic::review_platform::{failure_message, ReviewPlatformCommand};

#[test]
fn commit_message_needs_a_diff_and_cuts_long_ones() {
    let service = AIAnalysisService::new();
    let e = service.plan_commit_message("").unwrap_err();
    assert_eq!(e.kind, AgentErrorKind::InvalidInput);
    assert_eq!(e.message, "Code changes are empty");
    assert_eq!(service.plan_commit_message("diff").unwrap(), DiffPlan::AsIs);
    let long = "x".repeat(MAX_DIFF_CHARS + 1);
    assert_eq!(
        service.plan_commit_message(&long).unwrap(),
        DiffPlan::Truncate { max_chars: 50000 }
    );
    let exact = "é".repeat(MAX_DIFF_CHARS / 2);
    assert_eq!(service.truncate_diff_if_needed(&exact, MAX_DIFF_CHARS), DiffPlan::AsIs);
}

#[test]
fn empty_model_replies_and_failures_are_errors() {
    let service = AIAnalysisService::new();
    let e = service.check_ai_response(String::new()).unwrap_err();
    assert_eq!(e.kind, AgentErrorKind::InternalError);
    assert_eq!(e.message, "AI response is empty");
    assert_eq!(service.check_ai_response("{}".to_string()).unwrap(), "{}");
    assert_eq!(AIAnalysisService::ai_call_failed("timeout").message, "AI call failed: timeout");
    assert_eq!(
        AIAnalysisService::client_unavailable("no key").message,
        "Failed to get AI client: no key"
    );
    assert_eq!(AIAnalysisService::missing_json().kind, AgentErrorKind::AnalysisError);
    assert_eq!(
        AIAnalysisService::unparsable_response("eof").message,
        "Failed to parse AI response: eof"
    );
}

#[test]
fn review_platform_failures_name_the_command() {
    assert_eq!(
        failure_message(ReviewPlatformCommand::WorkspaceSnapshot, "offline"),
        "Failed to get review platform workspace snapshot: offline"
    );
    assert_eq!(
        failure_message(ReviewPlatformCommand::PullRequestCiLog, "404"),
        "Failed to get review platform CI log: 404"
    );
    assert_eq!(
        failure_message(ReviewPlatformCommand::ClearAuthToken, "denied"),
        "Failed to clear review platform auth token: denied"
    );
}
