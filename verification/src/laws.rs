//! Properties that relate the operations of the library to one another.

use vstd::prelude::*;
use crate::clock::{older_than, Timestamp};
use crate::local_agent::service::{
    accepted, timeout_for, SessionSummary, TaskSubmission, MAX_TIMEOUT_MS,
};
use crate::local_agent::tracker::TaskResultTracker;
use crate::local_agent::types::{error_code_text, LocalAgentApiError, LocalAgentErrorCode, TaskRunRequest};
use crate::session_api::tracker::not_found_message;
use crate::session_api::types::SendMessageResponse;
use crate::local_agent::tracker::{
    owned_by, running_response, unexpired, with_outcome, TaskRegistration, TrackedTask, TurnOutcome,
    DEFAULT_TASK_TTL_NANOS,
};
use crate::local_agent::types::LocalAgentTaskStatus;
use crate::miniapp::storage::{dependency_map, NpmDep};
use crate::local_agent::service::{
    given, name_matches, resolved_from, resolves, run_response_of, ResolvedSession,
};
use crate::local_agent::types::{TaskQueryResponse, TaskRunResponse};
use crate::tools::providers::{tool_name, ProductTool};

verus! {

/// A turn reads back as running, in its session, right after it is registered.
pub proof fn registered_turn_reads_back_running(
    before: Map<Seq<char>, TrackedTask>,
    registration: TaskRegistration,
    now: Timestamp,
    ttl: int,
)
    ensures
        ({
            let after = unexpired(before, now, ttl).insert(
                registration.turn_id@,
                TrackedTask { response: running_response(registration), created_at: now },
            );
            &&& after.contains_key(registration.turn_id@)
            &&& after[registration.turn_id@].response.status == LocalAgentTaskStatus::Running
            &&& after[registration.turn_id@].response.session_id == Some(registration.session_id)
            &&& after[registration.turn_id@].response.final_response is None
        }),
{
}

/// Recording a completion of a tracked turn of its own session makes the turn read
/// back as completed with that final response.
pub proof fn completion_reads_back(
    tasks: Map<Seq<char>, TrackedTask>,
    session_id: Seq<char>,
    turn_id: String,
    final_response: String,
)
    requires
        tasks.contains_key(turn_id@),
        owned_by(tasks[turn_id@], session_id),
    ensures
        ({
            let outcome = TurnOutcome::Completed { turn_id, final_response };
            let after = tasks.insert(turn_id@, with_outcome(tasks[turn_id@], outcome));
            &&& after[turn_id@].response.status == LocalAgentTaskStatus::Completed
            &&& after[turn_id@].response.final_response == Some(final_response)
            &&& after[turn_id@].response.error is None
            &&& after[turn_id@].response.session_id == tasks[turn_id@].response.session_id
        }),
{
}

/// Pruning removes exactly the tasks older than the limit: the others stay as
/// they were.
pub proof fn pruning_keeps_exactly_the_recent(
    tasks: Map<Seq<char>, TrackedTask>,
    now: Timestamp,
    max_age_nanos: int,
    k: Seq<char>,
)
    ensures
        unexpired(tasks, now, max_age_nanos).contains_key(k) <==> (tasks.contains_key(k) && !older_than(
            tasks[k].created_at,
            now,
            max_age_nanos,
        )),
        unexpired(tasks, now, max_age_nanos).contains_key(k) ==> unexpired(tasks, now, max_age_nanos)[k]
            == tasks[k],
{
}

/// Pruning twice at the same time with the same limit removes nothing more.
pub proof fn pruning_is_idempotent(tasks: Map<Seq<char>, TrackedTask>, now: Timestamp, max_age_nanos: int)
    ensures
        unexpired(unexpired(tasks, now, max_age_nanos), now, max_age_nanos) == unexpired(
            tasks,
            now,
            max_age_nanos,
        ),
{
    assert(unexpired(unexpired(tasks, now, max_age_nanos), now, max_age_nanos) =~= unexpired(
        tasks,
        now,
        max_age_nanos,
    ));
}

/// With the default time to live, a task registered less than an hour before
/// survives the pruning of a later registration.
pub proof fn default_ttl_keeps_recent_tasks(
    tasks: Map<Seq<char>, TrackedTask>,
    now: Timestamp,
    k: Seq<char>,
)
    requires
        tasks.contains_key(k),
        now.offset() - tasks[k].created_at.offset() <= DEFAULT_TASK_TTL_NANOS,
    ensures
        unexpired(tasks, now, DEFAULT_TASK_TTL_NANOS as int).contains_key(k),
{
}

/// The wait for a turn is never shorter than a millisecond nor longer than an hour,
/// and a requested wait within those bounds is kept.
pub proof fn timeout_is_clamped(timeout_ms: Option<u64>)
    ensures
        1 <= timeout_for(timeout_ms) <= MAX_TIMEOUT_MS,
        timeout_ms matches Some(t) ==> (1 <= t <= MAX_TIMEOUT_MS ==> timeout_for(timeout_ms) == t),
{
}

/// A turn that the service accepts reads back as running, in the session it was
/// submitted to, with no final response yet.
pub proof fn accepted_turn_reads_back_running(
    t0: TaskResultTracker,
    t1: TaskResultTracker,
    request: TaskRunRequest,
    listed: Result<Vec<SessionSummary>, String>,
    turn_id: String,
    now: Timestamp,
    submission: TaskSubmission,
)
    requires
        accepted(t0, t1, request, listed, turn_id, now, Ok(submission)),
    ensures
        t1@.contains_key(turn_id@),
        t1@[turn_id@].response.status == LocalAgentTaskStatus::Running,
        t1@[turn_id@].response.session_id == Some(submission.session_id),
        t1@[turn_id@].response.final_response is None,
        submission.turn_id == turn_id,
{
}

/// A refused run leaves the tracker as it was.
pub proof fn refused_run_changes_nothing(
    t0: TaskResultTracker,
    t1: TaskResultTracker,
    request: TaskRunRequest,
    listed: Result<Vec<SessionSummary>, String>,
    turn_id: String,
    now: Timestamp,
    error: LocalAgentApiError,
)
    requires
        accepted(t0, t1, request, listed, turn_id, now, Err(error)),
    ensures
        t1@ == t0@,
        t1.ttl() == t0.ttl(),
{
}

/// Different error codes are written differently on the wire.
pub proof fn error_codes_are_distinguishable(a: LocalAgentErrorCode, b: LocalAgentErrorCode)
    requires
        a != b,
    ensures
        error_code_text(a) != error_code_text(b),
{
    reveal_strlit("UNAUTHORIZED");
    reveal_strlit("INVALID_REQUEST");
    reveal_strlit("SESSION_NOT_FOUND");
    reveal_strlit("SESSION_NAME_AMBIGUOUS");
    reveal_strlit("SESSION_MISMATCH");
    reveal_strlit("SUBMIT_FAILED");
    reveal_strlit("TASK_NOT_FOUND");
    reveal_strlit("INTERNAL_ERROR");
    let ta = error_code_text(a);
    let tb = error_code_text(b);
    if ta == tb {
        assert(ta.len() == tb.len());
        assert(ta[0] == tb[0]);
        assert(ta[ta.len() - 1] == tb[tb.len() - 1]);
        assert(ta[2] == tb[2]);
        assert(ta[9] == tb[9]);
    }
}

/// A stored task result reads back until it is removed; a removed one reads back
/// as missing.
pub proof fn stored_result_reads_back_until_removed(
    results: Map<Seq<char>, SendMessageResponse>,
    task_id: Seq<char>,
    other_id: Seq<char>,
    result: SendMessageResponse,
)
    ensures
        results.insert(task_id, result)[task_id] == result,
        !results.insert(task_id, result).remove(task_id).contains_key(task_id),
        other_id != task_id ==> results.insert(task_id, result).remove(task_id).contains_key(other_id)
            == results.contains_key(other_id),
        not_found_message(task_id) != not_found_message(other_id) <== task_id != other_id,
{
    if task_id != other_id {
        let p = "Task result not found for ID: "@;
        if not_found_message(task_id) == not_found_message(other_id) {
            assert(not_found_message(task_id).subrange(p.len() as int, not_found_message(task_id).len() as int)
                =~= task_id);
            assert(not_found_message(other_id).subrange(p.len() as int, not_found_message(other_id).len() as int)
                =~= other_id);
        }
    }
}

/// The dependencies of a built `package.json` have one key per package name that
/// is listed, and no other; each key holds the version of the last entry that
/// names it.
pub proof fn package_dependencies_keep_the_last_version(deps: Seq<NpmDep>)
    ensures
        forall|k: Seq<char>|
            #[trigger] dependency_map(deps).contains_key(k) <==> exists|i: int| 0 <= i < deps.len() && deps[i].name@ == k,
        forall|i: int|
            0 <= i < deps.len() && (forall|j: int| i < j < deps.len() ==> deps[j].name@ != deps[i].name@)
                ==> dependency_map(deps)[#[trigger] deps[i].name@] == deps[i].version@,
    decreases deps.len(),
{
    if deps.len() > 0 {
        let t = deps.drop_last();
        package_dependencies_keep_the_last_version(t);
        assert(dependency_map(deps) == dependency_map(t).insert(deps.last().name@, deps.last().version@));
        assert forall|k: Seq<char>|
            #[trigger] dependency_map(deps).contains_key(k) <==> exists|i: int| 0 <= i < deps.len() && deps[i].name@ == k by {
            if dependency_map(deps).contains_key(k) && k != deps.last().name@ {
                assert(dependency_map(t).contains_key(k));
                let i = choose|i: int| 0 <= i < t.len() && t[i].name@ == k;
                assert(deps[i].name@ == k);
            }
            if k == deps.last().name@ {
                assert(deps[deps.len() - 1].name@ == k);
            }
            if exists|i: int| 0 <= i < deps.len() && deps[i].name@ == k {
                let i = choose|i: int| 0 <= i < deps.len() && deps[i].name@ == k;
                if i < deps.len() - 1 {
                    assert(t[i].name@ == k);
                    assert(dependency_map(t).contains_key(k));
                }
            }
        }
        assert forall|i: int|
            0 <= i < deps.len() && (forall|j: int| i < j < deps.len() ==> deps[j].name@ != deps[i].name@)
                implies dependency_map(deps)[#[trigger] deps[i].name@] == deps[i].version@ by {
            if i < deps.len() - 1 {
                assert(deps[deps.len() - 1].name@ != deps[i].name@);
                assert(t[i] == deps[i]);
                assert(forall|j: int| i < j < t.len() ==> t[j] == deps[j]);
                assert(dependency_map(t)[t[i].name@] == t[i].version@);
            }
        }
    }
}

/// The sessions that match a name are those whose session name is that name,
/// and no others: a longer name that begins with it does not match.
pub proof fn name_matches_are_exactly_that_name(sessions: Seq<SessionSummary>, name: Seq<char>)
    ensures
        forall|x: SessionSummary| #[trigger] name_matches(sessions, name).contains(x) ==> x.session_name@ == name
            && sessions.contains(x),
        forall|i: int|
            0 <= i < sessions.len() ==> (name_matches(sessions, name).contains(#[trigger] sessions[i])
                <==> sessions[i].session_name@ == name),
    decreases sessions.len(),
{
    if sessions.len() > 0 {
        let t = sessions.drop_last();
        let last = sessions.last();
        name_matches_are_exactly_that_name(t, name);
        let mt = name_matches(t, name);
        let m = name_matches(sessions, name);
        assert forall|x: SessionSummary| #[trigger] m.contains(x) implies x.session_name@ == name && sessions.contains(x) by {
            let k = choose|k: int| 0 <= k < m.len() && m[k] == x;
            if last.session_name@ == name && k == mt.len() {
                assert(sessions[sessions.len() - 1] == x);
            } else {
                assert(mt[k] == x);
                assert(mt.contains(x));
                let j = choose|j: int| 0 <= j < t.len() && t[j] == x;
                assert(sessions[j] == x);
            }
        }
        assert forall|i: int| 0 <= i < sessions.len() implies (m.contains(#[trigger] sessions[i])
            <==> sessions[i].session_name@ == name) by {
            if sessions[i].session_name@ == name {
                if i == sessions.len() - 1 {
                    assert(m[mt.len() as int] == sessions[i]);
                } else {
                    assert(t[i] == sessions[i]);
                    assert(mt.contains(t[i]));
                    let k = choose|k: int| 0 <= k < mt.len() && mt[k] == t[i];
                    assert(m[k] == sessions[i]);
                }
            }
        }
    }
}

proof fn lemma_no_name_match(sessions: Seq<SessionSummary>, name: Seq<char>)
    requires
        forall|j: int| 0 <= j < sessions.len() ==> sessions[j].session_name@ != name,
    ensures
        name_matches(sessions, name).len() == 0,
    decreases sessions.len(),
{
    if sessions.len() > 0 {
        let t = sessions.drop_last();
        assert(forall|j: int| 0 <= j < t.len() ==> t[j] == sessions[j]);
        lemma_no_name_match(t, name);
        assert(sessions[sessions.len() - 1].session_name@ != name);
    }
}

proof fn lemma_single_name_match(sessions: Seq<SessionSummary>, name: Seq<char>, i: int)
    requires
        0 <= i < sessions.len(),
        sessions[i].session_name@ == name,
        forall|j: int| 0 <= j < sessions.len() && j != i ==> sessions[j].session_name@ != name,
    ensures
        name_matches(sessions, name) == seq![sessions[i]],
    decreases sessions.len(),
{
    let t = sessions.drop_last();
    assert(forall|j: int| 0 <= j < t.len() ==> t[j] == sessions[j]);
    if i == sessions.len() - 1 {
        lemma_no_name_match(t, name);
        assert(name_matches(sessions, name) =~= seq![sessions[i]]);
    } else {
        lemma_single_name_match(t, name, i);
        assert(sessions[sessions.len() - 1].session_name@ != name);
    }
}

/// Without a session id, a session name that exactly one session carries resolves
/// to that session, whatever the names of the others (even ones that begin with it).
pub proof fn unique_session_name_resolves_to_its_session(
    sessions: Seq<SessionSummary>,
    request: TaskRunRequest,
    r: Result<ResolvedSession, LocalAgentApiError>,
    i: int,
)
    requires
        resolves(sessions, request, r),
        given(request.session_id) is None,
        given(request.session_name) is Some,
        0 <= i < sessions.len(),
        sessions[i].session_name@ == given(request.session_name)->0,
        forall|j: int|
            0 <= j < sessions.len() && j != i ==> sessions[j].session_name@ != given(request.session_name)->0,
    ensures
        r == Ok::<ResolvedSession, LocalAgentApiError>(
            ResolvedSession {
                session_id: sessions[i].session_id,
                session_name: sessions[i].session_name,
                agent_type: sessions[i].agent_type,
            },
        ),
{
    lemma_single_name_match(sessions, given(request.session_name)->0, i);
}

/// Each product tool is listed under its own name.
pub proof fn product_tools_are_listed_under_their_names()
    ensures
        tool_name(ProductTool::LSTool) == "LS"@,
        tool_name(ProductTool::FileReadTool) == "Read"@,
        tool_name(ProductTool::GlobTool) == "Glob"@,
        tool_name(ProductTool::GrepTool) == "Grep"@,
        tool_name(ProductTool::FileWriteTool) == "Write"@,
        tool_name(ProductTool::FileEditTool) == "Edit"@,
        tool_name(ProductTool::DeleteFileTool) == "Delete"@,
        tool_name(ProductTool::BashTool) == "Bash"@,
        tool_name(ProductTool::TaskTool) == "Task"@,
        tool_name(ProductTool::SkillTool) == "Skill"@,
        tool_name(ProductTool::AskUserQuestionTool) == "AskUserQuestion"@,
        tool_name(ProductTool::TodoWriteTool) == "TodoWrite"@,
        tool_name(ProductTool::CreatePlanTool) == "CreatePlan"@,
        tool_name(ProductTool::CodeReviewTool) == "submit_code_review"@,
        tool_name(ProductTool::GetToolSpecTool) == "GetToolSpec"@,
        tool_name(ProductTool::GetFileDiffTool) == "GetFileDiff"@,
        tool_name(ProductTool::LogTool) == "Log"@,
        tool_name(ProductTool::TerminalControlTool) == "TerminalControl"@,
        tool_name(ProductTool::SessionControlTool) == "SessionControl"@,
        tool_name(ProductTool::SessionMessageTool) == "SessionMessage"@,
        tool_name(ProductTool::SessionHistoryTool) == "SessionHistory"@,
        tool_name(ProductTool::CronTool) == "Cron"@,
        tool_name(ProductTool::WebSearchTool) == "WebSearch"@,
        tool_name(ProductTool::WebFetchTool) == "WebFetch"@,
        tool_name(ProductTool::ListMCPResourcesTool) == "ListMCPResources"@,
        tool_name(ProductTool::ReadMCPResourceTool) == "ReadMCPResource"@,
        tool_name(ProductTool::ListMCPPromptsTool) == "ListMCPPrompts"@,
        tool_name(ProductTool::GetMCPPromptTool) == "GetMCPPrompt"@,
        tool_name(ProductTool::GenerativeUITool) == "GenerativeUI"@,
        tool_name(ProductTool::GitTool) == "Git"@,
        tool_name(ProductTool::ReviewPlatformTool) == "ReviewPlatform"@,
        tool_name(ProductTool::InitMiniAppTool) == "InitMiniApp"@,
        tool_name(ProductTool::ControlHubTool) == "ControlHub"@,
        tool_name(ProductTool::ComputerUseTool) == "ComputerUse"@,
        tool_name(ProductTool::PlaybookTool) == "Playbook"@,
{
}

/// A run answer counts as timed out only for a turn that is still running, and,
/// when the wait may time out, always for such a turn; its status is the turn's.
pub proof fn only_a_running_turn_times_out(query: TaskQueryResponse, include_timeout: bool, r: TaskRunResponse)
    requires
        run_response_of(query, include_timeout, r),
    ensures
        r.timed_out ==> query.status == LocalAgentTaskStatus::Running,
        r.timed_out ==> include_timeout,
        include_timeout && query.status == LocalAgentTaskStatus::Running ==> r.timed_out,
        query.status != LocalAgentTaskStatus::Running ==> !r.timed_out,
        r.status == query.status,
        r.error == query.error,
        r.final_response == query.final_response,
{
}

/// An accepted run hands the scheduler the request's own message and workspace,
/// under the new turn id, for a session that the request resolves to.
pub proof fn accepted_run_submits_the_request_message(
    t0: TaskResultTracker,
    t1: TaskResultTracker,
    request: TaskRunRequest,
    listed: Result<Vec<SessionSummary>, String>,
    turn_id: String,
    now: Timestamp,
    sub: TaskSubmission,
)
    requires
        accepted(t0, t1, request, listed, turn_id, now, Ok(sub)),
    ensures
        sub.message == request.message,
        sub.workspace_path == request.workspace_path,
        sub.turn_id == turn_id,
        listed is Ok,
        exists|s: ResolvedSession|
            resolves(listed->Ok_0@, request, Ok(s)) && sub.session_id == s.session_id,
{
    let v = listed->Ok_0;
    let s = choose|s: ResolvedSession|
        #![trigger crate::local_agent::service::registered(t0, t1, s, turn_id, now)]
        resolves(v@, request, Ok(s)) && crate::local_agent::service::submission_for(sub, request, s, turn_id)
            && crate::local_agent::service::registered(t0, t1, s, turn_id, now);
    assert(resolves(v@, request, Ok(s)) && sub.session_id == s.session_id);
}

/// Recording an outcome keeps when the turn was registered, its session and its
/// turn id; so whether the turn has expired at any later time, under any time to
/// live, is the same as before the outcome was recorded.
pub proof fn recorded_outcome_keeps_the_registration_time(
    tasks: Map<Seq<char>, TrackedTask>,
    turn_id: Seq<char>,
    outcome: TurnOutcome,
    now: Timestamp,
    ttl: int,
)
    requires
        tasks.contains_key(turn_id),
    ensures
        with_outcome(tasks[turn_id], outcome).created_at == tasks[turn_id].created_at,
        with_outcome(tasks[turn_id], outcome).response.session_id == tasks[turn_id].response.session_id,
        with_outcome(tasks[turn_id], outcome).response.turn_id == tasks[turn_id].response.turn_id,
        unexpired(tasks.insert(turn_id, with_outcome(tasks[turn_id], outcome)), now, ttl).contains_key(turn_id)
            == unexpired(tasks, now, ttl).contains_key(turn_id),
        outcome matches TurnOutcome::Completed { final_response, .. } ==> with_outcome(tasks[turn_id], outcome).response.status
            == LocalAgentTaskStatus::Completed && with_outcome(tasks[turn_id], outcome).response.final_response
            == Some(final_response),
{
}

} // verus!
