//! The decisions of the commit-message service: which diffs it accepts, when a
//! diff is cut down, and which model replies and failures it refuses.

use vstd::prelude::*;

verus! {

/// The kinds of failure of a function agent.
#[derive(Debug, Clone, Copy, PartialEq, Eq, Structural)]
pub enum AgentErrorKind {
    InvalidInput,
    InternalError,
    AnalysisError,
}

/// A failure of a function agent.
#[derive(Debug, PartialEq, Eq)]
pub struct AgentError {
    pub kind: AgentErrorKind,
    pub message: String,
}

/// The most bytes of a diff that go into a prompt unchanged.
pub const MAX_DIFF_CHARS: usize = 50000;

/// What to do with a diff before it goes into a prompt.
#[derive(Debug, Clone, Copy, PartialEq, Eq, Structural)]
pub enum DiffPlan {
    /// The diff goes in as it is.
    AsIs,
    /// The diff is cut down to at most this many bytes.
    Truncate { max_chars: usize },
}

/// The plan for a diff of `len` bytes with a limit of `max_chars`.
pub open spec fn diff_plan(len: int, max_chars: usize) -> DiffPlan {
    if len <= max_chars {
        DiffPlan::AsIs
    } else {
        DiffPlan::Truncate { max_chars }
    }
}

/// The commit-message service of the Git function agent. The AI client that it
/// talks to stays with its caller.
#[derive(Debug)]
pub struct AIAnalysisService {}

fn text(s: &str) -> (r: String)
    ensures
        r@ == s@,
{
    String::from_str(s)
}

impl AIAnalysisService {
    /// The service.
    pub fn new() -> (r: Self) {
        AIAnalysisService {}
    }

    /// The failure when no AI client can be had for the agent.
    pub fn client_unavailable(error: &str) -> (r: AgentError)
        ensures
            r.kind == AgentErrorKind::InternalError,
            r.message@ == "Failed to get AI client: "@ + error@,
    {
        AgentError { kind: AgentErrorKind::InternalError, message: text("Failed to get AI client: ").concat(error) }
    }

    /// The plan for `diff` under a limit of `max_chars` bytes.
    pub fn truncate_diff_if_needed(&self, diff: &str, max_chars: usize) -> (r: DiffPlan)
        ensures
            r == diff_plan(diff.len() as int, max_chars),
    {
        if diff.len() <= max_chars {
            DiffPlan::AsIs
        } else {
            DiffPlan::Truncate { max_chars }
        }
    }

    /// The first step of writing a commit message: an empty diff is refused, and a
    /// diff longer than the limit is cut down.
    pub fn plan_commit_message(&self, diff_content: &str) -> (r: Result<DiffPlan, AgentError>)
        ensures
            diff_content@.len() == 0 ==> (r matches Err(e) && e.kind == AgentErrorKind::InvalidInput
                && e.message@ == "Code changes are empty"@),
            diff_content@.len() > 0 ==> r == Ok::<DiffPlan, AgentError>(
                diff_plan(diff_content.len() as int, MAX_DIFF_CHARS),
            ),
    {
        if diff_content.is_empty() {
            return Err(AgentError { kind: AgentErrorKind::InvalidInput, message: text("Code changes are empty") });
        }
        Ok(self.truncate_diff_if_needed(diff_content, MAX_DIFF_CHARS))
    }

    /// The failure of a call to the model.
    pub fn ai_call_failed(error: &str) -> (r: AgentError)
        ensures
            r.kind == AgentErrorKind::InternalError,
            r.message@ == "AI call failed: "@ + error@,
    {
        AgentError { kind: AgentErrorKind::InternalError, message: text("AI call failed: ").concat(error) }
    }

    /// The model's reply, unless it is empty.
    pub fn check_ai_response(&self, response_text: String) -> (r: Result<String, AgentError>)
        ensures
            response_text@.len() == 0 ==> (r matches Err(e) && e.kind == AgentErrorKind::InternalError
                && e.message@ == "AI response is empty"@),
            response_text@.len() > 0 ==> r == Ok::<String, AgentError>(response_text),
    {
        if response_text.as_str().is_empty() {
            Err(AgentError { kind: AgentErrorKind::InternalError, message: text("AI response is empty") })
        } else {
            Ok(response_text)
        }
    }

    /// The failure when no JSON can be found in the model's reply.
    pub fn missing_json() -> (r: AgentError)
        ensures
            r.kind == AgentErrorKind::AnalysisError,
            r.message@ == "Cannot extract JSON from response"@,
    {
        AgentError { kind: AgentErrorKind::AnalysisError, message: text("Cannot extract JSON from response") }
    }

    /// The failure when the JSON of the model's reply does not parse.
    pub fn unparsable_response(error: &str) -> (r: AgentError)
        ensures
            r.kind == AgentErrorKind::AnalysisError,
            r.message@ == "Failed to parse AI response: "@ + error@,
    {
        AgentError {
            kind: AgentErrorKind::AnalysisError,
            message: text("Failed to parse AI response: ").concat(error),
        }
    }
}

} // verus!
