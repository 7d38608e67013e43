use authflow::callback::extract_callback_params;
use authflow::errors::AuthError;
use authflow::store::CorrelationStore;
use tokio::sync::oneshot;

type Channel = oneshot::Sender<Result<String, AuthError>>;

#[test]
fn test_register_and_resolve_delivers_code() {
    // A loopback request `GET /callback?code=xyz&state=abc` against a store
    // holding "abc": the entry resolves and the channel yields Ok("xyz").
    let mut store: CorrelationStore<Channel> = CorrelationStore::new();
    let (tx, mut rx) = oneshot::channel();
    assert!(store.register("abc".to_string(), tx));

    let (code, state) = extract_callback_params("code=xyz&state=abc");
    let code = code.expect("the query names a code");
    let state = state.expect("the query names a state");
    assert_eq!(state, "abc");

    let sender = store.resolve(&state);
    assert!(sender.is_some(), "the store should report resolved");
    sender.unwrap().send(Ok(code)).unwrap();
    assert_eq!(rx.try_recv().unwrap().unwrap(), "xyz");
}

#[test]
fn test_resolve_and_expire_succeed_at_most_once() {
    // Duplicate deliveries for one token: exactly one succeeds, every later
    // resolve or expire reports "not found".
    let mut store: CorrelationStore<u32> = CorrelationStore::new();
    assert!(store.register("abc".to_string(), 7));
    assert_eq!(store.resolve("abc"), Some(7));
    assert_eq!(store.resolve("abc"), None);
    assert!(!store.expire("abc"));

    assert!(store.register("abc".to_string(), 8));
    assert!(store.expire("abc"));
    assert!(!store.expire("abc"));
    assert_eq!(store.resolve("abc"), None);
}

#[test]
fn test_resolve_and_expire_are_noops_without_entry() {
    // A token with no entry is a safe no-op returning "not found".
    let mut store: CorrelationStore<u32> = CorrelationStore::new();
    assert_eq!(store.resolve("missing"), None);
    assert!(!store.expire("missing"));
    assert!(!store.contains("missing"));
}

#[test]
fn test_expired_entry_rejects_late_delivery() {
    // After the timeout path expires the token, a late delivery is reported
    // "not found".
    let mut store: CorrelationStore<u32> = CorrelationStore::new();
    assert!(store.register("abc".to_string(), 1));
    assert!(store.expire("abc"));
    assert_eq!(store.resolve("abc"), None);
}

#[test]
fn test_register_rejects_duplicate_token() {
    let mut store: CorrelationStore<u32> = CorrelationStore::new();
    assert!(store.register("abc".to_string(), 1));
    assert!(!store.register("abc".to_string(), 2));
    assert_eq!(store.resolve("abc"), Some(1));
}

#[test]
fn test_independent_tokens_do_not_interfere() {
    let mut store: CorrelationStore<u32> = CorrelationStore::new();
    assert!(store.register("one".to_string(), 1));
    assert!(store.register("two".to_string(), 2));
    assert_eq!(store.resolve("two"), Some(2));
    assert!(store.contains("one"));
    assert_eq!(store.resolve("one"), Some(1));
}
