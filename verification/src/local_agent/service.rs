//! Validation of run requests, resolution of the session that a request names, and
//! the steps of running a task through the tracker.

use vstd::prelude::*;
use crate::clock::{system_time_to_unix_secs, Timestamp};
use crate::ids::{is_v4_uuid, new_uuid_text};
use crate::local_agent::tracker::{
    not_found_response, running_response, unexpired, TaskRegistration, TaskResultTracker, TrackedTask,
};
use crate::local_agent::types::{
    DetailValue, LocalAgentApiError, LocalAgentErrorCode, LocalAgentTaskStatus, SessionCandidate,
    TaskQueryResponse, TaskRunRequest, TaskRunResponse,
};
use crate::text::{has_content, is_present, trim, trim_spec};

verus! {

/// The longest wait for a turn, in milliseconds: an hour.
pub const MAX_TIMEOUT_MS: u64 = 3_600_000;

/// The wait for a turn when a request names none, in milliseconds: ten minutes.
pub const DEFAULT_TIMEOUT_MS: u64 = 600_000;

/// A session of a workspace, as the coordinator lists it.
#[derive(Debug)]
pub struct SessionSummary {
    pub session_id: String,
    pub session_name: String,
    pub agent_type: String,
    pub created_at: Timestamp,
}

/// The session that a run request was resolved to.
#[derive(Debug, PartialEq, Eq)]
pub struct ResolvedSession {
    pub session_id: String,
    pub session_name: String,
    pub agent_type: String,
}

/// The trimmed text of an optional field, when it holds more than white space.
pub open spec fn given(field: Option<String>) -> Option<Seq<char>> {
    match field {
        Some(s) => if has_content(s@) {
            Some(trim_spec(s@))
        } else {
            None
        },
        None => None,
    }
}

/// The trimmed text of an optional field, when it holds more than white space.
pub fn given_text(field: &Option<String>) -> (r: Option<&str>)
    ensures
        match r {
            Some(t) => given(*field) == Some(t@),
            None => given(*field) is None,
        },
{
    match field {
        Some(s) => {
            let t = trim(s.as_str());
            if t.is_empty() {
                None
            } else {
                Some(t)
            }
        },
        None => None,
    }
}

/// What is wrong with a run request, as the message of its error, if anything.
pub open spec fn request_problem(request: TaskRunRequest) -> Option<Seq<char>> {
    if given(request.session_id) is None && given(request.session_name) is None {
        Some("sessionId or sessionName is required"@)
    } else if !has_content(request.workspace_path@) {
        Some("workspacePath is required"@)
    } else if !has_content(request.message@) {
        Some("message is required"@)
    } else {
        None
    }
}

/// An `InvalidRequest` error with the given message and no details.
pub open spec fn is_invalid_request(e: LocalAgentApiError, message: Seq<char>) -> bool {
    e.code == LocalAgentErrorCode::InvalidRequest && e.message@ == message && e.details@.len() == 0
}

/// Checks that a run request names a session, a workspace and a message.
pub fn validate_task_request(request: &TaskRunRequest) -> (r: Result<(), LocalAgentApiError>)
    ensures
        match r {
            Ok(()) => request_problem(*request) is None,
            Err(e) => request_problem(*request) matches Some(m) && is_invalid_request(e, m),
        },
{
    let has_session_id = given_text(&request.session_id).is_some();
    let has_session_name = given_text(&request.session_name).is_some();
    if !has_session_id && !has_session_name {
        return Err(LocalAgentApiError::invalid_request(
            String::from_str("sessionId or sessionName is required"),
        ));
    }
    if !is_present(request.workspace_path.as_str()) {
        return Err(LocalAgentApiError::invalid_request(String::from_str("workspacePath is required")));
    }
    if !is_present(request.message.as_str()) {
        return Err(LocalAgentApiError::invalid_request(String::from_str("message is required")));
    }
    Ok(())
}

/// The wait for a turn: the requested one, or the default, held between one
/// millisecond and an hour.
pub open spec fn timeout_for(timeout_ms: Option<u64>) -> int {
    let t = match timeout_ms {
        Some(t) => t as int,
        None => DEFAULT_TIMEOUT_MS as int,
    };
    if t < 1 {
        1
    } else if t > MAX_TIMEOUT_MS {
        MAX_TIMEOUT_MS as int
    } else {
        t
    }
}

/// The wait for a turn, in milliseconds.
pub fn resolve_timeout_ms(timeout_ms: Option<u64>) -> (r: u64)
    ensures
        r == timeout_for(timeout_ms),
{
    let t = match timeout_ms {
        Some(t) => t,
        None => DEFAULT_TIMEOUT_MS,
    };
    if t < 1 {
        1
    } else if t > MAX_TIMEOUT_MS {
        MAX_TIMEOUT_MS
    } else {
        t
    }
}

/// The candidate that a session stands as when its name is ambiguous.
pub open spec fn candidate_of(summary: SessionSummary) -> SessionCandidate {
    SessionCandidate {
        session_id: summary.session_id,
        session_name: summary.session_name,
        agent_type: summary.agent_type,
        created_at: summary.created_at.unix_secs() as u64,
    }
}

/// The session as a candidate, with its creation time in whole seconds since the epoch.
pub fn candidate_from_summary(summary: &SessionSummary) -> (r: SessionCandidate)
    requires
        summary.created_at.bounded(),
    ensures
        r == candidate_of(*summary),
{
    SessionCandidate {
        session_id: summary.session_id.clone(),
        session_name: summary.session_name.clone(),
        agent_type: summary.agent_type.clone(),
        created_at: system_time_to_unix_secs(summary.created_at),
    }
}

/// The session as the resolution of a request.
pub open spec fn resolved_from(summary: SessionSummary) -> ResolvedSession {
    ResolvedSession {
        session_id: summary.session_id,
        session_name: summary.session_name,
        agent_type: summary.agent_type,
    }
}

fn resolve_to(summary: &SessionSummary) -> (r: ResolvedSession)
    ensures
        r == resolved_from(*summary),
{
    ResolvedSession {
        session_id: summary.session_id.clone(),
        session_name: summary.session_name.clone(),
        agent_type: summary.agent_type.clone(),
    }
}

/// The sessions named `name`, in their order.
pub open spec fn name_matches(sessions: Seq<SessionSummary>, name: Seq<char>) -> Seq<SessionSummary>
    decreases sessions.len(),
{
    if sessions.len() == 0 {
        Seq::empty()
    } else {
        let earlier = name_matches(sessions.drop_last(), name);
        if sessions.last().session_name@ == name {
            earlier.push(sessions.last())
        } else {
            earlier
        }
    }
}

/// `i` is the first session whose id is `id`.
pub open spec fn first_with_id(sessions: Seq<SessionSummary>, id: Seq<char>, i: int) -> bool {
    &&& 0 <= i < sessions.len()
    &&& sessions[i].session_id@ == id
    &&& forall|j: int| 0 <= j < i ==> sessions[j].session_id@ != id
}

/// An error with the given code and message and no details.
pub open spec fn is_error(e: LocalAgentApiError, code: LocalAgentErrorCode, message: Seq<char>) -> bool {
    e.code == code && e.message@ == message && e.details@.len() == 0
}

/// The message for a session id that no session has.
pub open spec fn id_not_found_message(id: Seq<char>) -> Seq<char> {
    "sessionId '"@ + id + "' was not found"@
}

/// The message for a session name that no session has.
pub open spec fn name_not_found_message(name: Seq<char>) -> Seq<char> {
    "sessionName '"@ + name + "' was not found"@
}

fn quoted_message(prefix: &str, value: &str, suffix: &str) -> (r: String)
    ensures
        r@ == prefix@ + value@ + suffix@,
{
    let mut m = String::from_str(prefix);
    m.append(value);
    m.append(suffix);
    m
}

/// `r` is what resolving `request` among `sessions` gives.
///
/// A session id, when given, decides: the first session with that id, which must
/// also carry the session name when one is given. Without an id, the one session
/// with the given name; two or more are refused with the list of candidates.
pub open spec fn resolves(
    sessions: Seq<SessionSummary>,
    request: TaskRunRequest,
    r: Result<ResolvedSession, LocalAgentApiError>,
) -> bool {
    &&& given(request.session_id) matches Some(id) ==> {
            &&& (forall|j: int| 0 <= j < sessions.len() ==> sessions[j].session_id@ != id) ==> (r matches Err(
                e,
            ) && is_error(e, LocalAgentErrorCode::SessionNotFound, id_not_found_message(id)))
            &&& forall|i: int|
                #[trigger] first_with_id(sessions, id, i) ==> if given(request.session_name) matches Some(n)
                    && sessions[i].session_name@ != n {
                    r matches Err(e) && is_error(
                        e,
                        LocalAgentErrorCode::SessionMismatch,
                        "sessionId and sessionName do not refer to the same session"@,
                    )
                } else {
                    r == Ok::<ResolvedSession, LocalAgentApiError>(resolved_from(sessions[i]))
                }
        }
    &&& given(request.session_id) is None ==> {
            let n = given(request.session_name)->0;
            let m = name_matches(sessions, n);
            &&& m.len() == 0 ==> (r matches Err(e) && is_error(
                e,
                LocalAgentErrorCode::SessionNotFound,
                name_not_found_message(n),
            ))
            &&& m.len() == 1 ==> r == Ok::<ResolvedSession, LocalAgentApiError>(resolved_from(m[0]))
            &&& m.len() >= 2 ==> (r matches Err(e) && e.code == LocalAgentErrorCode::SessionNameAmbiguous
                && e.message@ == "multiple sessions match sessionName in this workspace"@
                && e.details@.len() == 1 && e.details@[0].key@ == "candidates"@
                && e.details@[0].value.candidates() == m.map_values(|s: SessionSummary| candidate_of(s)))
        }
}

/// The session that a validated request names among `sessions` (see `resolves`).
pub fn resolve_session_from_summaries(
    sessions: &[SessionSummary],
    request: &TaskRunRequest,
) -> (r: Result<ResolvedSession, LocalAgentApiError>)
    requires
        given(request.session_id) is Some || given(request.session_name) is Some,
        forall|i: int| 0 <= i < sessions@.len() ==> (#[trigger] sessions@[i]).created_at.bounded(),
    ensures
        resolves(sessions@, *request, r),
{
    let by_id = given_text(&request.session_id);
    let by_name = given_text(&request.session_name);
    if let Some(session_id) = by_id {
        let n = sessions.len();
        let mut i: usize = 0;
        while i < n
            invariant
                n == sessions@.len(),
                0 <= i <= n,
                forall|j: int| 0 <= j < i ==> sessions@[j].session_id@ != session_id@,
                given(request.session_id) == Some(session_id@),
                match by_name {
                    Some(t) => given(request.session_name) == Some(t@),
                    None => given(request.session_name) is None,
                },
            decreases n - i,
        {
            if crate::text::str_eq(sessions[i].session_id.as_str(), session_id) {
                let session = &sessions[i];
                assert(first_with_id(sessions@, session_id@, i as int));
                assert forall|k: int| #[trigger] first_with_id(sessions@, session_id@, k) implies k == i as int by {
                    if k < i as int {
                    } else if k > i as int {
                        assert(sessions@[i as int].session_id@ != session_id@);
                    }
                }
                if let Some(session_name) = by_name {
                    if !crate::text::str_eq(session.session_name.as_str(), session_name) {
                        return Err(LocalAgentApiError::new(
                            LocalAgentErrorCode::SessionMismatch,
                            String::from_str("sessionId and sessionName do not refer to the same session"),
                        ));
                    }
                }
                return Ok(resolve_to(session));
            }
            i = i + 1;
        }
        assert forall|k: int| !#[trigger] first_with_id(sessions@, session_id@, k) by {}
        return Err(LocalAgentApiError::new(
            LocalAgentErrorCode::SessionNotFound,
            quoted_message("sessionId '", session_id, "' was not found"),
        ));
    }
    let session_name = match by_name {
        Some(name) => name,
        None => {
            assert(false);
            return Err(LocalAgentApiError::invalid_request(String::new()));
        },
    };
    let ghost name = session_name@;
    let ghost f = |s: SessionSummary| candidate_of(s);
    let n = sessions.len();
    let mut candidates: Vec<SessionCandidate> = Vec::new();
    let mut first: usize = 0;
    let mut i: usize = 0;
    while i < n
        invariant
            n == sessions@.len(),
            0 <= i <= n,
            name == session_name@,
            f == (|s: SessionSummary| candidate_of(s)),
            forall|j: int| 0 <= j < sessions@.len() ==> (#[trigger] sessions@[j]).created_at.bounded(),
            candidates@ == name_matches(sessions@.subrange(0, i as int), name).map_values(f),
            name_matches(sessions@.subrange(0, i as int), name).len() > 0 ==> first < n
                && name_matches(sessions@.subrange(0, i as int), name)[0] == sessions@[first as int],
        decreases n - i,
    {
        let ghost prefix = sessions@.subrange(0, i as int);
        let ghost next = sessions@.subrange(0, i + 1);
        assert(next.drop_last() =~= prefix);
        assert(next.last() == sessions@[i as int]);
        if crate::text::str_eq(sessions[i].session_name.as_str(), session_name) {
            if candidates.len() == 0 {
                first = i;
            }
            let c = candidate_from_summary(&sessions[i]);
            candidates.push(c);
            proof {
                assert(name_matches(next, name) == name_matches(prefix, name).push(sessions@[i as int]));
                assert(name_matches(next, name).map_values(f) =~= name_matches(prefix, name).map_values(f).push(
                    f(sessions@[i as int]),
                ));
            }
        } else {
            assert(name_matches(next, name) == name_matches(prefix, name));
        }
        i = i + 1;
    }
    assert(sessions@.subrange(0, n as int) =~= sessions@);
    let ghost m = name_matches(sessions@, name);
    assert(candidates@.len() == m.len());
    if candidates.len() == 0 {
        Err(LocalAgentApiError::new(
            LocalAgentErrorCode::SessionNotFound,
            quoted_message("sessionName '", session_name, "' was not found"),
        ))
    } else if candidates.len() == 1 {
        Ok(resolve_to(&sessions[first]))
    } else {
        let e = LocalAgentApiError::new(
            LocalAgentErrorCode::SessionNameAmbiguous,
            String::from_str("multiple sessions match sessionName in this workspace"),
        );
        let r = e.with_detail(String::from_str("candidates"), DetailValue::Candidates(candidates));
        Err(r)
    }
}

/// `r` answers a run request from `query`; with `include_timeout`, a turn still
/// running counts as timed out.
pub open spec fn run_response_of(query: TaskQueryResponse, include_timeout: bool, r: TaskRunResponse) -> bool {
    &&& r.status == query.status
    &&& r.session_id@ == (match query.session_id {
        Some(s) => s@,
        None => Seq::<char>::empty(),
    })
    &&& r.session_name@ == (match query.session_name {
        Some(s) => s@,
        None => Seq::<char>::empty(),
    })
    &&& r.turn_id == query.turn_id
    &&& r.final_response == query.final_response
    &&& r.error == query.error
    &&& r.timed_out == (include_timeout && query.status == LocalAgentTaskStatus::Running)
}

/// The answer to a run request from what is known of its turn (see `run_response_of`).
pub fn task_run_response_from_query(query: TaskQueryResponse, include_timeout: bool) -> (r: TaskRunResponse)
    ensures
        run_response_of(query, include_timeout, r),
{
    let timed_out = include_timeout && query.status == LocalAgentTaskStatus::Running;
    TaskRunResponse {
        status: query.status,
        session_id: query.session_id.unwrap_or_default(),
        session_name: query.session_name.unwrap_or_default(),
        turn_id: query.turn_id,
        final_response: query.final_response,
        error: query.error,
        timed_out,
    }
}

/// The agent that runs a turn: the request's, when it names one, else the session's.
pub open spec fn chosen_agent_type(request: TaskRunRequest, session: ResolvedSession) -> Seq<char> {
    match given(request.agent_type) {
        Some(a) => a,
        None => session.agent_type@,
    }
}

/// What the scheduler is handed to run a turn.
#[derive(Debug)]
pub struct TaskSubmission {
    pub session_id: String,
    pub message: String,
    pub turn_id: String,
    pub agent_type: String,
    pub workspace_path: String,
    pub timeout_ms: u64,
}

/// `sub` runs `request` as turn `turn_id` of `session`.
pub open spec fn submission_for(
    sub: TaskSubmission,
    request: TaskRunRequest,
    session: ResolvedSession,
    turn_id: String,
) -> bool {
    &&& sub.session_id == session.session_id
    &&& sub.message == request.message
    &&& sub.turn_id == turn_id
    &&& sub.agent_type@ == chosen_agent_type(request, session)
    &&& sub.workspace_path == request.workspace_path
    &&& sub.timeout_ms == timeout_for(request.timeout_ms)
}

/// The tracker's record of turn `turn_id` of `session`, registered at `now`.
pub open spec fn registration_of(session: ResolvedSession, turn_id: String) -> TaskRegistration {
    TaskRegistration {
        turn_id,
        session_id: session.session_id,
        session_name: session.session_name,
    }
}

/// `t1` is `t0` after registering turn `turn_id` of `session` at `now`.
pub open spec fn registered(
    t0: TaskResultTracker,
    t1: TaskResultTracker,
    session: ResolvedSession,
    turn_id: String,
    now: Timestamp,
) -> bool {
    &&& t1.ttl() == t0.ttl()
    &&& t1@ == unexpired(t0@, now, t0.ttl()).insert(
        turn_id@,
        TrackedTask { response: running_response(registration_of(session, turn_id)), created_at: now },
    )
}

/// The turn ids that this service makes: `local-agent-` and a random version 4 UUID.
pub open spec fn is_turn_id(s: Seq<char>) -> bool {
    &&& s.len() == 48
    &&& s.subrange(0, 12) == "local-agent-"@
    &&& is_v4_uuid(s.subrange(12, 48))
}

/// A new turn id: `local-agent-` and a random version 4 UUID.
pub fn new_turn_id() -> (r: String)
    ensures
        is_turn_id(r@),
{
    let uuid = new_uuid_text();
    let mut id = String::from_str("local-agent-");
    proof {
        reveal_strlit("local-agent-");
    }
    id.append(uuid.as_str());
    assert(id@.subrange(0, 12) =~= "local-agent-"@);
    assert(id@.subrange(12, 48) =~= uuid@);
    id
}

/// Runs tasks of the local agent API against its tracker: the steps between the
/// calls to the session coordinator and the dialog scheduler, which the caller makes.
#[derive(Debug)]
pub struct LocalAgentApiService {
    pub tracker: TaskResultTracker,
}

impl LocalAgentApiService {
    /// A service over `tracker`.
    pub fn new(tracker: TaskResultTracker) -> (r: Self)
        ensures
            r.tracker == tracker,
    {
        LocalAgentApiService { tracker }
    }

    /// The first step of a run: the request is checked, and the trimmed workspace
    /// path whose sessions are to be listed comes back.
    pub fn start_run(request: &TaskRunRequest) -> (r: Result<String, LocalAgentApiError>)
        ensures
            match r {
                Ok(path) => request_problem(*request) is None && path@ == trim_spec(request.workspace_path@),
                Err(e) => request_problem(*request) matches Some(m) && is_invalid_request(e, m),
            },
    {
        validate_task_request(request)?;
        Ok(String::from_str(trim(request.workspace_path.as_str())))
    }

    /// The second step of a run, with the sessions that the coordinator listed (or
    /// its error): the session is resolved, a new turn is registered, and what the
    /// scheduler is to run comes back (see `accept_sessions_at`).
    pub fn accept_sessions(
        &mut self,
        request: &TaskRunRequest,
        listed: Result<Vec<SessionSummary>, String>,
    ) -> (r: Result<TaskSubmission, LocalAgentApiError>)
        requires
            request_problem(*request) is None,
            listed matches Ok(v) ==> forall|i: int| 0 <= i < v@.len() ==> (#[trigger] v@[i]).created_at.bounded(),
        ensures
            exists|turn_id: String, now: Timestamp|
                is_turn_id(turn_id@) && now.bounded() && accepted(
                    old(self).tracker,
                    final(self).tracker,
                    *request,
                    listed,
                    turn_id,
                    now,
                    r,
                ),
    {
        let turn_id = new_turn_id();
        let now = Timestamp::now();
        self.accept_sessions_at(request, listed, turn_id, now)
    }

    /// The second step of a run, as turn `turn_id` registered at `now`. An error of
    /// the listing is an internal error and a session that does not resolve is
    /// refused, both leaving the tracker as it was; otherwise the turn is registered
    /// as running and handed on with the message, the agent type and the timeout.
    pub fn accept_sessions_at(
        &mut self,
        request: &TaskRunRequest,
        listed: Result<Vec<SessionSummary>, String>,
        turn_id: String,
        now: Timestamp,
    ) -> (r: Result<TaskSubmission, LocalAgentApiError>)
        requires
            request_problem(*request) is None,
            now.bounded(),
            listed matches Ok(v) ==> forall|i: int| 0 <= i < v@.len() ==> (#[trigger] v@[i]).created_at.bounded(),
        ensures
            accepted(old(self).tracker, final(self).tracker, *request, listed, turn_id, now, r),
    {
        let sessions = match listed {
            Ok(v) => v,
            Err(message) => {
                return Err(LocalAgentApiError::new(LocalAgentErrorCode::InternalError, message));
            },
        };
        let slice = sessions.as_slice();
        assert(slice@ == sessions@);
        let resolved = resolve_session_from_summaries(slice, request);
        let session = match resolved {
            Ok(s) => s,
            Err(e) => return Err(e),
        };
        assert(resolves(sessions@, *request, Ok(session)));
        let agent_type = match given_text(&request.agent_type) {
            Some(a) => String::from_str(a),
            None => session.agent_type.clone(),
        };
        let ghost g_turn = turn_id;
        let ghost t0 = self.tracker;
        let reg = TaskRegistration {
            turn_id: turn_id.clone(),
            session_id: session.session_id.clone(),
            session_name: session.session_name.clone(),
        };
        assert(reg == registration_of(session, g_turn));
        self.tracker.register_at(reg, now);
        assert(registered(t0, self.tracker, session, g_turn, now));
        let sub = TaskSubmission {
            session_id: session.session_id.clone(),
            message: request.message.clone(),
            turn_id,
            agent_type,
            workspace_path: request.workspace_path.clone(),
            timeout_ms: resolve_timeout_ms(request.timeout_ms),
        };
        assert(submission_for(sub, *request, session, g_turn));
        Ok(sub)
    }

    /// The third step of a run, with the scheduler's answer: its error fails the run.
    pub fn after_submit(result: Result<(), String>) -> (r: Result<(), LocalAgentApiError>)
        ensures
            match result {
                Ok(()) => r is Ok,
                Err(m) => r matches Err(e) && is_error(e, LocalAgentErrorCode::SubmitFailed, m@),
            },
    {
        match result {
            Ok(()) => Ok(()),
            Err(message) => Err(LocalAgentApiError::new(LocalAgentErrorCode::SubmitFailed, message)),
        }
    }

    /// The last step of a run, with what the wait for the turn gave (`None` when it
    /// timed out): that answer, or else the tracker's, as a run response in which a
    /// turn still running counts as timed out.
    pub fn finish_run(&self, turn_id: &str, waited: Option<TaskQueryResponse>) -> (r: TaskRunResponse)
        ensures
            waited matches Some(w) ==> run_response_of(w, true, r),
            waited is None && self.tracker@.contains_key(turn_id@) ==> run_response_of(
                self.tracker@[turn_id@].response,
                true,
                r,
            ),
            waited is None && !self.tracker@.contains_key(turn_id@) ==> {
                &&& r.status == LocalAgentTaskStatus::NotFound
                &&& r.turn_id@ == turn_id@
                &&& r.session_id@.len() == 0
                &&& r.session_name@.len() == 0
                &&& r.final_response is None
                &&& r.error is None
                &&& !r.timed_out
            },
    {
        let query = match waited {
            Some(w) => w,
            None => self.tracker.query_or_not_found(turn_id),
        };
        task_run_response_from_query(query, true)
    }

    /// What is known of a turn, or a `NotFound` answer for it.
    pub fn query_task(&self, turn_id: &str) -> (r: TaskQueryResponse)
        ensures
            self.tracker@.contains_key(turn_id@) ==> r == self.tracker@[turn_id@].response,
            !self.tracker@.contains_key(turn_id@) ==> not_found_response(turn_id@, r),
    {
        self.tracker.query_or_not_found(turn_id)
    }
}

/// The outcome of the second step of a run, from tracker `t0` to tracker `t1`.
pub open spec fn accepted(
    t0: TaskResultTracker,
    t1: TaskResultTracker,
    request: TaskRunRequest,
    listed: Result<Vec<SessionSummary>, String>,
    turn_id: String,
    now: Timestamp,
    r: Result<TaskSubmission, LocalAgentApiError>,
) -> bool {
    match listed {
        Err(m) => t1@ == t0@ && t1.ttl() == t0.ttl() && (r matches Err(e) && is_error(
            e,
            LocalAgentErrorCode::InternalError,
            m@,
        )),
        Ok(v) => match r {
            Err(e) => t1@ == t0@ && t1.ttl() == t0.ttl() && resolves(v@, request, Err(e)),
            Ok(sub) => exists|s: ResolvedSession|
                #![trigger registered(t0, t1, s, turn_id, now)]
                resolves(v@, request, Ok(s)) && submission_for(sub, request, s, turn_id) && registered(
                    t0,
                    t1,
                    s,
                    turn_id,
                    now,
                ),
        },
    }
}

} // verus!
