use authflow::errors::AuthError;
use authflow::login::{begin_login, build_authorize_url, generate_correlation_token};
use authflow::store::CorrelationStore;
use authflow::{get_production_callback_base, get_redirect_uri};

#[test]
fn test_redirect_uri_per_mode() {
    assert_eq!(get_redirect_uri(true), "http://127.0.0.1:54321/callback");
    assert_eq!(get_redirect_uri(false), "revision://github/callback");
    assert_eq!(get_production_callback_base(), "revision://github/callback");
}

#[test]
fn test_build_authorize_url_encodes_parameters() {
    let url = build_authorize_url(
        "id123",
        "http://127.0.0.1:54321/callback",
        "read:user user:email",
        "abc",
    );
    assert_eq!(
        url,
        "https://github.com/login/oauth/authorize?client_id=id123\
         &redirect_uri=http%3A%2F%2F127.0.0.1%3A54321%2Fcallback\
         &scope=read%3Auser%20user%3Aemail&state=abc"
    );
}

#[test]
fn test_generated_token_is_long_and_alphanumeric() {
    let token = generate_correlation_token(32);
    assert_eq!(token.len(), 32);
    assert!(token.chars().all(|c| c.is_ascii_alphanumeric()));
    // Two draws colliding would defeat the token's purpose; with 62^32
    // values it never happens in practice.
    let other = generate_correlation_token(32);
    assert_ne!(token, other);
}

#[test]
fn test_begin_login_registers_token_and_returns_url() {
    let mut store: CorrelationStore<u32> = CorrelationStore::new();
    let url = begin_login(
        &mut store,
        "id123",
        "revision://github/callback",
        "read:user user:email",
        "abc".to_string(),
        5,
    )
    .expect("login should start");
    assert!(url.starts_with("https://github.com/login/oauth/authorize?client_id=id123"));
    assert!(url.ends_with("&state=abc"));
    assert!(store.contains("abc"));
    assert_eq!(store.resolve("abc"), Some(5));
}

#[test]
fn test_begin_login_rejects_empty_client_id() {
    let mut store: CorrelationStore<u32> = CorrelationStore::new();
    let r = begin_login(
        &mut store,
        "",
        "revision://github/callback",
        "read:user",
        "abc".to_string(),
        5,
    );
    assert!(matches!(r, Err(AuthError::InternalError(_))));
    assert!(!store.contains("abc"));
}

#[test]
fn test_begin_login_rejects_pending_token() {
    let mut store: CorrelationStore<u32> = CorrelationStore::new();
    assert!(store.register("abc".to_string(), 1));
    let r = begin_login(
        &mut store,
        "id123",
        "revision://github/callback",
        "read:user",
        "abc".to_string(),
        5,
    );
    assert!(matches!(r, Err(AuthError::InternalError(_))));
    assert_eq!(store.resolve("abc"), Some(1));
}
