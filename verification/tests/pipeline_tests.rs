use authflow::errors::AuthError;
use authflow::pipeline::{
    interpret_profile_response, interpret_sync_response, interpret_token_response,
    profile_from_fields, sync_from_fields, token_from_fields,
};

#[test]
fn test_token_exchange_success() {
    let r = interpret_token_response(200, "{\"access_token\":\"tok123\",\"scope\":\"\"}");
    assert_eq!(r.unwrap(), "tok123");
}

#[test]
fn test_token_exchange_error_status() {
    let r = interpret_token_response(400, "bad request");
    match r {
        Err(AuthError::GitHubError(m)) => {
            assert_eq!(m, "code exchange failed (status 400): bad request")
        }
        other => panic!("expected a provider error, got {:?}", other),
    }
}

#[test]
fn test_token_exchange_empty_token_is_provider_error() {
    let r = interpret_token_response(200, "{\"access_token\":\"\"}");
    match r {
        Err(AuthError::GitHubError(m)) => assert_eq!(m, "received an empty access token"),
        other => panic!("expected a provider error, got {:?}", other),
    }
}

#[test]
fn test_token_exchange_unreadable_body_is_parse_error() {
    assert!(matches!(
        interpret_token_response(200, "not json"),
        Err(AuthError::ParseError(_))
    ));
    assert!(matches!(
        interpret_token_response(200, "{\"error\":\"bad_verification_code\"}"),
        Err(AuthError::ParseError(_))
    ));
}

#[test]
fn test_token_from_fields_pins_every_case() {
    assert!(matches!(
        token_from_fields(500, Some("tok".to_string()), "x"),
        Err(AuthError::GitHubError(_))
    ));
    assert!(matches!(
        token_from_fields(204, None, ""),
        Err(AuthError::ParseError(_))
    ));
    assert_eq!(token_from_fields(200, Some("tok".to_string()), "").unwrap(), "tok");
}

#[test]
fn test_profile_fetch_success() {
    let body = "{\"login\":\"octocat\",\"id\":583231,\"name\":\"The Octocat\",\
                \"avatar_url\":\"https://example.invalid/a.png\",\"email\":null}";
    let p = interpret_profile_response(200, body).unwrap();
    assert_eq!(p.login, "octocat");
    assert_eq!(p.id, 583231);
    assert_eq!(p.name.as_deref(), Some("The Octocat"));
    assert_eq!(p.avatar_url, "https://example.invalid/a.png");
    assert_eq!(p.email, None);
}

#[test]
fn test_profile_fetch_error_status() {
    match interpret_profile_response(401, "unauthorized") {
        Err(AuthError::GitHubError(m)) => {
            assert_eq!(m, "profile fetch failed (status 401): unauthorized")
        }
        other => panic!("expected a provider error, got {:?}", other),
    }
}

#[test]
fn test_profile_fetch_incomplete_record_is_parse_error() {
    assert!(matches!(
        interpret_profile_response(200, "{\"id\":1}"),
        Err(AuthError::ParseError(_))
    ));
    assert!(matches!(
        interpret_profile_response(200, "[]"),
        Err(AuthError::ParseError(_))
    ));
}

#[test]
fn test_profile_from_fields_requires_core_fields() {
    assert!(profile_from_fields(None, Some(1), None, Some("a".to_string()), None).is_none());
    assert!(profile_from_fields(Some("l".to_string()), None, None, Some("a".to_string()), None)
        .is_none());
    assert!(profile_from_fields(Some("l".to_string()), Some(1), None, None, None).is_none());
    let p = profile_from_fields(
        Some("l".to_string()),
        Some(1),
        None,
        Some("a".to_string()),
        Some("e@example.invalid".to_string()),
    )
    .unwrap();
    assert_eq!(p.login, "l");
    assert_eq!(p.email.as_deref(), Some("e@example.invalid"));
}

#[test]
fn test_sync_acknowledged() {
    assert!(interpret_sync_response(200, "{\"success\":true}").is_ok());
}

#[test]
fn test_sync_explicit_failure_despite_transport_success() {
    // A 200 whose body says success:false is still a failure, never a
    // success event.
    match interpret_sync_response(200, "{\"success\":false,\"message\":\"quota\"}") {
        Err(AuthError::BackendSyncFailed(m)) => {
            assert_eq!(m, "the backend reported failure: quota")
        }
        other => panic!("expected a sync failure, got {:?}", other),
    }
}

#[test]
fn test_sync_error_status() {
    match interpret_sync_response(503, "down") {
        Err(AuthError::BackendSyncFailed(m)) => {
            assert_eq!(m, "backend sync failed (status 503): down")
        }
        other => panic!("expected a sync failure, got {:?}", other),
    }
}

#[test]
fn test_sync_unreadable_acknowledgement_is_parse_error() {
    assert!(matches!(
        interpret_sync_response(200, "not json"),
        Err(AuthError::ParseError(_))
    ));
    assert!(matches!(
        interpret_sync_response(200, "{\"success\":\"yes\"}"),
        Err(AuthError::ParseError(_))
    ));
}

#[test]
fn test_sync_from_fields_pins_every_case() {
    assert!(sync_from_fields(200, Some(true), None, "").is_ok());
    assert!(matches!(
        sync_from_fields(200, Some(false), None, ""),
        Err(AuthError::BackendSyncFailed(_))
    ));
    assert!(matches!(
        sync_from_fields(200, None, None, ""),
        Err(AuthError::ParseError(_))
    ));
    assert!(matches!(
        sync_from_fields(500, Some(true), None, ""),
        Err(AuthError::BackendSyncFailed(_))
    ));
}
