//! The HTTP face of the local agent API: authorization of a request and the status
//! code of each error.

use vstd::prelude::*;
use crate::local_agent::auth::{bearer_header, verify_authorization_header};
use crate::local_agent::types::{LocalAgentApiError, LocalAgentErrorCode};

verus! {

/// The HTTP status code that answers an error code.
pub open spec fn status_code(code: LocalAgentErrorCode) -> u16 {
    match code {
        LocalAgentErrorCode::Unauthorized => 401,
        LocalAgentErrorCode::InvalidRequest | LocalAgentErrorCode::SessionMismatch => 400,
        LocalAgentErrorCode::SessionNotFound | LocalAgentErrorCode::TaskNotFound => 404,
        LocalAgentErrorCode::SessionNameAmbiguous => 409,
        LocalAgentErrorCode::SubmitFailed | LocalAgentErrorCode::InternalError => 500,
    }
}

/// The HTTP status code of the answer to an error.
pub fn status_for_error(error: &LocalAgentApiError) -> (r: u16)
    ensures
        r == status_code(error.code),
{
    match error.code {
        LocalAgentErrorCode::Unauthorized => 401,
        LocalAgentErrorCode::InvalidRequest | LocalAgentErrorCode::SessionMismatch => 400,
        LocalAgentErrorCode::SessionNotFound | LocalAgentErrorCode::TaskNotFound => 404,
        LocalAgentErrorCode::SessionNameAmbiguous => 409,
        LocalAgentErrorCode::SubmitFailed | LocalAgentErrorCode::InternalError => 500,
    }
}

/// Admits a request whose `Authorization` header carries the expected bearer token
/// and refuses any other as unauthorized.
pub fn authorize(header: Option<&str>, expected_token: &str) -> (r: Result<(), LocalAgentApiError>)
    ensures
        match r {
            Ok(()) => header matches Some(h) && h@ == bearer_header(expected_token@),
            Err(e) => !(header matches Some(h) && h@ == bearer_header(expected_token@))
                && e.code == LocalAgentErrorCode::Unauthorized
                && e.message@ == "missing or invalid bearer token"@ && e.details@.len() == 0,
        },
{
    if verify_authorization_header(header, expected_token) {
        Ok(())
    } else {
        Err(LocalAgentApiError::new(
            LocalAgentErrorCode::Unauthorized,
            String::from_str("missing or invalid bearer token"),
        ))
    }
}

} // verus!
