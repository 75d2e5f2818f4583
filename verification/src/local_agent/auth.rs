//! Bearer-token authorization of local agent API requests, and the token itself.

use vstd::prelude::*;
use crate::ids::{
    is_lower_hex, is_rfc4122_variant_digit, is_uuid_hyphen_position, new_uuid_text, remove_hyphens,
    uuid_hyphens_before,
};
use crate::text::{has_content, is_present, str_eq, strip_prefix};

verus! {

/// The stored configuration of the local agent API.
#[derive(Debug)]
pub struct LocalAgentApiAuthConfig {
    pub token: String,
}

/// The header value that carries `token`.
pub open spec fn bearer_header(token: Seq<char>) -> Seq<char> {
    "Bearer "@ + token
}

/// Whether an `Authorization` header carries exactly the expected bearer token.
pub fn verify_authorization_header(header: Option<&str>, expected_token: &str) -> (r: bool)
    ensures
        r == (header matches Some(h) && h@ == bearer_header(expected_token@)),
{
    let header = match header {
        Some(h) => h,
        None => return false,
    };
    let token = match strip_prefix(header, "Bearer ") {
        Some(t) => t,
        None => {
            proof {
                if header@ == bearer_header(expected_token@) {
                    assert("Bearer "@.is_prefix_of(header@)) by {
                        assert(header@.subrange(0, "Bearer "@.len() as int) =~= "Bearer "@);
                    }
                }
            }
            return false;
        },
    };
    proof {
        let p = "Bearer "@;
        assert(header@.subrange(0, p.len() as int) =~= p);
        assert(header@.subrange(p.len() as int, header@.len() as int) =~= token@);
        if header@ == bearer_header(expected_token@) {
            assert(header@.subrange(p.len() as int, header@.len() as int) =~= expected_token@);
        }
    }
    str_eq(token, expected_token)
}

/// The stored token, when it holds more than white space.
pub fn stored_token(config: &LocalAgentApiAuthConfig) -> (r: Option<String>)
    ensures
        has_content(config.token@) ==> r == Some(config.token),
        !has_content(config.token@) ==> r is None,
{
    if is_present(config.token.as_str()) {
        Some(config.token.clone())
    } else {
        None
    }
}

/// A new random token: the hexadecimal digits of a random version 4 UUID, whose
/// version digit (position 12) is `4` and variant digit (position 16) is one of
/// `8`, `9`, `a`, `b`.
pub fn generate_token() -> (r: String)
    ensures
        r@.len() == 32,
        forall|i: int| 0 <= i < r@.len() ==> is_lower_hex(#[trigger] r@[i]),
        r@[12] == '4',
        is_rfc4122_variant_digit(r@[16]),
{
    let uuid = new_uuid_text();
    let r = remove_hyphens(uuid.as_str());
    assert(!is_uuid_hyphen_position(14) && uuid_hyphens_before(14) == 2);
    assert(!is_uuid_hyphen_position(19) && uuid_hyphens_before(19) == 3);
    assert(r@[12] == uuid@[14]);
    assert(r@[16] == uuid@[19]);
    r
}

} // verus!
