use bitfun_logic::local_agent::auth::{
    generate_token, stored_token, verify_authorization_header, LocalAgentApiAuthConfig,
};
use bitfun_logic::local_agent::http::{authorize, status_for_error};
use bitfun_logic::local_agent::types::{LocalAgentApiError, LocalAgentErrorCode};

#[test]
fn verify_bearer_token_accepts_exact_value() {
    assert!(verify_authorization_header(Some("Bearer abc123"), "abc123"));
}

#[test]
fn verify_bearer_token_rejects_missing_or_wrong_value() {
    assert!(!verify_authorization_header(None, "abc123"));
    assert!(!verify_authorization_header(Some("Bearer wrong"), "abc123"));
    assert!(!verify_authorization_header(Some("Basic abc123"), "abc123"));
}

#[test]
fn verify_bearer_token_rejects_prefix_and_suffix_variants() {
    assert!(!verify_authorization_header(Some("bearer abc123"), "abc123"));
    assert!(!verify_authorization_header(Some("Bearer abc1234"), "abc123"));
    assert!(!verify_authorization_header(Some("Bearer  abc123"), "abc123"));
    assert!(!verify_authorization_header(Some(""), ""));
    assert!(verify_authorization_header(Some("Bearer "), ""));
}

#[test]
fn status_for_session_name_ambiguous_is_conflict() {
    let error = LocalAgentApiError::new(
        LocalAgentErrorCode::SessionNameAmbiguous,
        "multiple sessions match sessionName in this workspace".to_string(),
    );
    assert_eq!(status_for_error(&error), 409);
}

#[test]
fn status_for_unauthorized_is_unauthorized() {
    let error = LocalAgentApiError::new(
        LocalAgentErrorCode::Unauthorized,
        "missing bearer token".to_string(),
    );
    assert_eq!(status_for_error(&error), 401);
}

#[test]
fn status_codes_cover_every_error_code() {
    let expected = [
        (LocalAgentErrorCode::Unauthorized, 401),
        (LocalAgentErrorCode::InvalidRequest, 400),
        (LocalAgentErrorCode::SessionMismatch, 400),
        (LocalAgentErrorCode::SessionNotFound, 404),
        (LocalAgentErrorCode::TaskNotFound, 404),
        (LocalAgentErrorCode::SessionNameAmbiguous, 409),
        (LocalAgentErrorCode::SubmitFailed, 500),
        (LocalAgentErrorCode::InternalError, 500),
    ];
    for (code, status) in expected {
        let error = LocalAgentApiError::new(code, "x".to_string());
        assert_eq!(status_for_error(&error), status);
    }
}

#[test]
fn authorize_refuses_with_unauthorized_error() {
    assert!(authorize(Some("Bearer tok"), "tok").is_ok());
    let error = authorize(Some("Bearer other"), "tok").unwrap_err();
    assert_eq!(error.code, LocalAgentErrorCode::Unauthorized);
    assert_eq!(error.message, "missing or invalid bearer token");
    assert!(error.details.is_empty());
    assert!(authorize(None, "tok").is_err());
}

#[test]
fn stored_token_needs_content() {
    let config = LocalAgentApiAuthConfig { token: "  ".to_string() };
    assert_eq!(stored_token(&config), None);
    let config = LocalAgentApiAuthConfig { token: " abc ".to_string() };
    assert_eq!(stored_token(&config), Some(" abc ".to_string()));
}

#[test]
fn generated_tokens_are_32_hex_digits_and_differ() {
    let a = generate_token();
    let b = generate_token();
    assert_eq!(a.len(), 32);
    assert!(a.chars().all(|c| c.is_ascii_hexdigit() && !c.is_ascii_uppercase()));
    assert_ne!(a, b);
}

#[test]
fn generated_tokens_carry_the_uuid_version_and_variant_digits() {
    for _ in 0..16 {
        let token = bitfun_logic::local_agent::auth::generate_token();
        let chars: Vec<char> = token.chars().collect();
        assert_eq!(chars.len(), 32);
        assert_eq!(chars[12], '4');
        assert!(matches!(chars[16], '8' | '9' | 'a' | 'b'));
    }
}
