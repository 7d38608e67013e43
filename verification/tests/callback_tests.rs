use authflow::callback::{extract_callback_params, handle_deep_link, pct_decode, DeepLinkOutcome};
use authflow::store::CorrelationStore;

const BASE: &str = "revision://github/callback";

#[test]
fn test_deep_link_with_matching_state_delivers() {
    let mut store: CorrelationStore<u32> = CorrelationStore::new();
    assert!(store.register("abc".to_string(), 9));
    let outcome = handle_deep_link(&mut store, BASE, "revision://github/callback?code=xyz&state=abc");
    match outcome {
        DeepLinkOutcome::Deliver(v, code) => {
            assert_eq!(v, 9);
            assert_eq!(code, "xyz");
        }
        other => panic!("expected a delivery, got {:?}", kind_of(&other)),
    }
    assert!(!store.contains("abc"));
}

#[test]
fn test_deep_link_with_mismatched_state_is_invalid() {
    // The store holds "abc" but the deep link delivers state=def: the store
    // reports "not found" and the entry for "abc" stays pending.
    let mut store: CorrelationStore<u32> = CorrelationStore::new();
    assert!(store.register("abc".to_string(), 9));
    let outcome = handle_deep_link(&mut store, BASE, "revision://github/callback?code=xyz&state=def");
    assert!(matches!(outcome, DeepLinkOutcome::InvalidState));
    assert!(store.contains("abc"));
}

#[test]
fn test_deep_link_without_parameters_is_reported() {
    let mut store: CorrelationStore<u32> = CorrelationStore::new();
    assert!(store.register("abc".to_string(), 9));
    let outcome = handle_deep_link(&mut store, BASE, "revision://github/callback?code=xyz");
    assert!(matches!(outcome, DeepLinkOutcome::MissingParams));
    let outcome = handle_deep_link(&mut store, BASE, "revision://github/callback");
    assert!(matches!(outcome, DeepLinkOutcome::MissingParams));
    assert!(store.contains("abc"));
}

#[test]
fn test_deep_link_with_foreign_base_is_ignored() {
    let mut store: CorrelationStore<u32> = CorrelationStore::new();
    assert!(store.register("abc".to_string(), 9));
    let outcome = handle_deep_link(&mut store, BASE, "https://example.invalid/callback?state=abc");
    assert!(matches!(outcome, DeepLinkOutcome::Ignored));
    assert!(store.contains("abc"));
}

#[test]
fn test_pct_decode_handles_escapes() {
    assert_eq!(pct_decode("a%20b%2Bc+d"), "a b+c d");
    assert_eq!(pct_decode("plain"), "plain");
    assert_eq!(pct_decode("%zz"), "%zz");
    assert_eq!(pct_decode("%4"), "%4");
    // multi-byte escapes decode as UTF-8
    assert_eq!(pct_decode("%C3%A9"), "\u{e9}");
    // bytes that are not UTF-8 are replaced, as from_utf8_lossy replaces them
    assert_eq!(pct_decode("%FF"), "\u{fffd}");
}

#[test]
fn test_extract_callback_params_reads_both() {
    let (code, state) = extract_callback_params("code=x%20y&state=abc&extra=1");
    assert_eq!(code.unwrap(), "x y");
    assert_eq!(state.unwrap(), "abc");
}

#[test]
fn test_extract_callback_params_last_duplicate_wins() {
    let (code, state) = extract_callback_params("state=a&code=1&state=b&&code=2");
    assert_eq!(code.unwrap(), "2");
    assert_eq!(state.unwrap(), "b");
}

#[test]
fn test_extract_callback_params_missing_names() {
    let (code, state) = extract_callback_params("other=1&flag");
    assert!(code.is_none());
    assert!(state.is_none());
}

fn kind_of<V>(o: &DeepLinkOutcome<V>) -> &'static str {
    match o {
        DeepLinkOutcome::Ignored => "Ignored",
        DeepLinkOutcome::MissingParams => "MissingParams",
        DeepLinkOutcome::InvalidState => "InvalidState",
        DeepLinkOutcome::Deliver(_, _) => "Deliver",
    }
}
