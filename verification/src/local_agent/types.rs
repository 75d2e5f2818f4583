//! Request, response and error types of the local agent API.

use vstd::prelude::*;

verus! {

/// A request to run a message as a new turn of an existing session.
#[derive(Debug)]
pub struct TaskRunRequest {
    pub session_id: Option<String>,
    pub session_name: Option<String>,
    pub workspace_path: String,
    pub message: String,
    pub agent_type: Option<String>,
    pub timeout_ms: Option<u64>,
}

/// Where a tracked turn stands.
#[derive(Debug, Clone, Copy, PartialEq, Eq, Structural)]
pub enum LocalAgentTaskStatus {
    Running,
    Completed,
    Failed,
    Cancelled,
    NotFound,
}

/// A session that matched an ambiguous session name.
#[derive(Debug, PartialEq, Eq)]
pub struct SessionCandidate {
    pub session_id: String,
    pub session_name: String,
    pub agent_type: String,
    pub created_at: u64,
}

impl Clone for SessionCandidate {
    fn clone(&self) -> (r: Self)
        ensures
            r == *self,
    {
        SessionCandidate {
            session_id: self.session_id.clone(),
            session_name: self.session_name.clone(),
            agent_type: self.agent_type.clone(),
            created_at: self.created_at,
        }
    }
}

/// The answer to a run request.
#[derive(Debug, PartialEq, Eq)]
pub struct TaskRunResponse {
    pub status: LocalAgentTaskStatus,
    pub session_id: String,
    pub session_name: String,
    pub turn_id: String,
    pub final_response: Option<String>,
    pub error: Option<String>,
    pub timed_out: bool,
}

/// What is known of a turn.
#[derive(Debug, PartialEq, Eq)]
pub struct TaskQueryResponse {
    pub status: LocalAgentTaskStatus,
    pub session_id: Option<String>,
    pub session_name: Option<String>,
    pub turn_id: String,
    pub final_response: Option<String>,
    pub error: Option<String>,
}

impl Clone for TaskQueryResponse {
    fn clone(&self) -> (r: Self)
        ensures
            r == *self,
    {
        TaskQueryResponse {
            status: self.status,
            session_id: self.session_id.clone(),
            session_name: self.session_name.clone(),
            turn_id: self.turn_id.clone(),
            final_response: self.final_response.clone(),
            error: self.error.clone(),
        }
    }
}

/// The stable error codes of the API.
#[derive(Debug, Clone, Copy, PartialEq, Eq, Structural)]
pub enum LocalAgentErrorCode {
    Unauthorized,
    InvalidRequest,
    SessionNotFound,
    SessionNameAmbiguous,
    SessionMismatch,
    SubmitFailed,
    TaskNotFound,
    InternalError,
}

/// The wire text of an error code.
pub open spec fn error_code_text(code: LocalAgentErrorCode) -> Seq<char> {
    match code {
        LocalAgentErrorCode::Unauthorized => "UNAUTHORIZED"@,
        LocalAgentErrorCode::InvalidRequest => "INVALID_REQUEST"@,
        LocalAgentErrorCode::SessionNotFound => "SESSION_NOT_FOUND"@,
        LocalAgentErrorCode::SessionNameAmbiguous => "SESSION_NAME_AMBIGUOUS"@,
        LocalAgentErrorCode::SessionMismatch => "SESSION_MISMATCH"@,
        LocalAgentErrorCode::SubmitFailed => "SUBMIT_FAILED"@,
        LocalAgentErrorCode::TaskNotFound => "TASK_NOT_FOUND"@,
        LocalAgentErrorCode::InternalError => "INTERNAL_ERROR"@,
    }
}

impl LocalAgentErrorCode {
    /// The code as it is written on the wire.
    pub fn as_str(self) -> (r: &'static str)
        ensures
            r@ == error_code_text(self),
    {
        match self {
            LocalAgentErrorCode::Unauthorized => "UNAUTHORIZED",
            LocalAgentErrorCode::InvalidRequest => "INVALID_REQUEST",
            LocalAgentErrorCode::SessionNotFound => "SESSION_NOT_FOUND",
            LocalAgentErrorCode::SessionNameAmbiguous => "SESSION_NAME_AMBIGUOUS",
            LocalAgentErrorCode::SessionMismatch => "SESSION_MISMATCH",
            LocalAgentErrorCode::SubmitFailed => "SUBMIT_FAILED",
            LocalAgentErrorCode::TaskNotFound => "TASK_NOT_FOUND",
            LocalAgentErrorCode::InternalError => "INTERNAL_ERROR",
        }
    }

    /// The code written on the wire as `text`, if any.
    pub fn from_wire_text(text: &str) -> (r: Option<LocalAgentErrorCode>)
        ensures
            match r {
                Some(code) => error_code_text(code) == text@,
                None => forall|code: LocalAgentErrorCode| error_code_text(code) != text@,
            },
    {
        let codes = [
            LocalAgentErrorCode::Unauthorized,
            LocalAgentErrorCode::InvalidRequest,
            LocalAgentErrorCode::SessionNotFound,
            LocalAgentErrorCode::SessionNameAmbiguous,
            LocalAgentErrorCode::SessionMismatch,
            LocalAgentErrorCode::SubmitFailed,
            LocalAgentErrorCode::TaskNotFound,
            LocalAgentErrorCode::InternalError,
        ];
        let mut i: usize = 0;
        while i < 8
            invariant
                0 <= i <= 8,
                codes@ == seq![
                    LocalAgentErrorCode::Unauthorized,
                    LocalAgentErrorCode::InvalidRequest,
                    LocalAgentErrorCode::SessionNotFound,
                    LocalAgentErrorCode::SessionNameAmbiguous,
                    LocalAgentErrorCode::SessionMismatch,
                    LocalAgentErrorCode::SubmitFailed,
                    LocalAgentErrorCode::TaskNotFound,
                    LocalAgentErrorCode::InternalError,
                ],
                forall|j: int| 0 <= j < i ==> error_code_text(#[trigger] codes@[j]) != text@,
            decreases 8 - i,
        {
            let code = codes[i];
            if crate::text::str_eq(code.as_str(), text) {
                return Some(code);
            }
            i = i + 1;
        }
        assert forall|code: LocalAgentErrorCode| error_code_text(code) != text@ by {
            match code {
                LocalAgentErrorCode::Unauthorized => assert(codes@[0] == code),
                LocalAgentErrorCode::InvalidRequest => assert(codes@[1] == code),
                LocalAgentErrorCode::SessionNotFound => assert(codes@[2] == code),
                LocalAgentErrorCode::SessionNameAmbiguous => assert(codes@[3] == code),
                LocalAgentErrorCode::SessionMismatch => assert(codes@[4] == code),
                LocalAgentErrorCode::SubmitFailed => assert(codes@[5] == code),
                LocalAgentErrorCode::TaskNotFound => assert(codes@[6] == code),
                LocalAgentErrorCode::InternalError => assert(codes@[7] == code),
            }
        }
        None
    }
}

/// The value of one error detail.
#[derive(Debug, PartialEq, Eq)]
pub enum DetailValue {
    /// The sessions among which a session name could not choose.
    Candidates(Vec<SessionCandidate>),
}

impl DetailValue {
    /// The candidates that the detail lists.
    pub open spec fn candidates(self) -> Seq<SessionCandidate> {
        match self {
            DetailValue::Candidates(c) => c@,
        }
    }
}

impl Clone for DetailValue {
    fn clone(&self) -> (r: Self)
        ensures
            r.candidates() == self.candidates(),
    {
        match self {
            DetailValue::Candidates(c) => {
                let v = c.clone();
                proof {
                    assert forall|i: int| 0 <= i < c@.len() implies v@[i] == c@[i] by {
                        assert(cloned(c@[i], v@[i]));
                    }
                    assert(v@ =~= c@);
                }
                DetailValue::Candidates(v)
            },
        }
    }
}

/// One named detail of an error.
#[derive(Debug, PartialEq, Eq)]
pub struct ErrorDetail {
    pub key: String,
    pub value: DetailValue,
}

/// `b` holds the same key and value as `a`.
pub open spec fn same_detail(a: ErrorDetail, b: ErrorDetail) -> bool {
    a.key == b.key && a.value.candidates() == b.value.candidates()
}

/// `b` holds the same details as `a`, in the same order.
pub open spec fn same_details(a: Seq<ErrorDetail>, b: Seq<ErrorDetail>) -> bool {
    a.len() == b.len() && forall|i: int| 0 <= i < a.len() ==> same_detail(#[trigger] a[i], b[i])
}

impl Clone for ErrorDetail {
    fn clone(&self) -> (r: Self)
        ensures
            same_detail(*self, r),
    {
        ErrorDetail { key: self.key.clone(), value: self.value.clone() }
    }
}

/// No two details share a key.
pub open spec fn keys_distinct(details: Seq<ErrorDetail>) -> bool {
    forall|i: int, j: int|
        0 <= i < details.len() && 0 <= j < details.len() && i != j
            ==> #[trigger] details[i].key@ != #[trigger] details[j].key@
}

/// An error of the API: a code, a message and named details.
#[derive(Debug, PartialEq, Eq)]
pub struct LocalAgentApiError {
    pub code: LocalAgentErrorCode,
    pub message: String,
    pub details: Vec<ErrorDetail>,
}

/// `b` carries the same code, message and details as `a`.
pub open spec fn same_error(a: LocalAgentApiError, b: LocalAgentApiError) -> bool {
    a.code == b.code && a.message == b.message && same_details(a.details@, b.details@)
}

impl Clone for LocalAgentApiError {
    fn clone(&self) -> (r: Self)
        ensures
            same_error(*self, r),
    {
        let details = self.details.clone();
        proof {
            assert forall|i: int| 0 <= i < self.details@.len() implies same_detail(
                self.details@[i],
                details@[i],
            ) by {
                assert(cloned(self.details@[i], details@[i]));
            }
        }
        LocalAgentApiError { code: self.code, message: self.message.clone(), details }
    }
}

/// The body of an error answer.
#[derive(Debug, PartialEq, Eq)]
pub struct LocalAgentErrorResponse {
    pub error: LocalAgentApiError,
}

impl LocalAgentApiError {
    /// An error with the given code and message and no details.
    pub fn new(code: LocalAgentErrorCode, message: String) -> (r: Self)
        ensures
            r.code == code,
            r.message == message,
            r.details@.len() == 0,
    {
        LocalAgentApiError { code, message, details: Vec::new() }
    }

    /// An `InvalidRequest` error with the given message.
    pub fn invalid_request(message: String) -> (r: Self)
        ensures
            r.code == LocalAgentErrorCode::InvalidRequest,
            r.message == message,
            r.details@.len() == 0,
    {
        Self::new(LocalAgentErrorCode::InvalidRequest, message)
    }

    /// The error with the detail `key` set to `value`: an earlier detail of that key
    /// is replaced in place, otherwise the detail is added at the end.
    pub fn with_detail(self, key: String, value: DetailValue) -> (r: Self)
        requires
            keys_distinct(self.details@),
        ensures
            r.code == self.code,
            r.message == self.message,
            keys_distinct(r.details@),
            (exists|i: int| 0 <= i < self.details@.len() && self.details@[i].key@ == key@) ==> {
                let i = choose|i: int| 0 <= i < self.details@.len() && self.details@[i].key@ == key@;
                r.details@ == self.details@.update(i, ErrorDetail { key, value })
            },
            (forall|i: int| 0 <= i < self.details@.len() ==> self.details@[i].key@ != key@)
                ==> r.details@ == self.details@.push(ErrorDetail { key, value }),
    {
        let mut details = self.details;
        let n = details.len();
        let mut i: usize = 0;
        while i < n
            invariant
                n == details@.len(),
                details@ == self.details@,
                keys_distinct(self.details@),
                0 <= i <= n,
                forall|j: int| 0 <= j < i ==> details@[j].key@ != key@,
            decreases n - i,
        {
            if str_equal(&details[i].key, &key) {
                proof {
                    assert(self.details@[i as int].key@ == key@);
                    let c = choose|j: int| 0 <= j < self.details@.len() && self.details@[j].key@ == key@;
                    assert(c == i as int);
                }
                let ghost k = key@;
                details.set(i, ErrorDetail { key, value });
                proof {
                    assert(details@[i as int].key@ == k);
                    assert(keys_distinct(details@));
                }
                return LocalAgentApiError { code: self.code, message: self.message, details };
            }
            i = i + 1;
        }
        details.push(ErrorDetail { key, value });
        LocalAgentApiError { code: self.code, message: self.message, details }
    }

    /// The body that answers with this error.
    pub fn to_error_response(&self) -> (r: LocalAgentErrorResponse)
        ensures
            same_error(*self, r.error),
    {
        LocalAgentErrorResponse { error: self.clone() }
    }
}

fn str_equal(a: &String, b: &String) -> (r: bool)
    ensures
        r == (a@ == b@),
{
    crate::text::str_eq(a.as_str(), b.as_str())
}

} // verus!
