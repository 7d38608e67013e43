use authflow::errors::AuthError;
use authflow::flow::{flow_step, FlowAction, FlowEvent, FlowState};
use authflow::pipeline::GithubUserProfile;
use authflow::store::CorrelationStore;

fn sample_profile() -> GithubUserProfile {
    GithubUserProfile {
        login: "octocat".to_string(),
        id: 1,
        name: Some("The Octocat".to_string()),
        avatar_url: "https://example.invalid/a.png".to_string(),
        email: None,
    }
}

#[test]
fn test_happy_path_runs_pipeline_in_order() {
    // A delivered code drives exchange, then profile fetch, then sync, then
    // the success event — in that order.
    let step = flow_step(
        FlowState::AwaitingCallback,
        FlowEvent::CodeDelivered("xyz".to_string()),
    );
    assert_eq!(step.next, FlowState::Exchanging);
    assert!(!step.cleanup);
    match step.action {
        FlowAction::ExchangeCode(code) => assert_eq!(code, "xyz"),
        other => panic!("expected an exchange order, got {:?}", other),
    }

    let step = flow_step(step.next, FlowEvent::ExchangeSucceeded("tok".to_string()));
    assert_eq!(step.next, FlowState::FetchingProfile);
    match step.action {
        FlowAction::FetchProfile(token) => assert_eq!(token, "tok"),
        other => panic!("expected a profile fetch order, got {:?}", other),
    }

    let step = flow_step(step.next, FlowEvent::ProfileFetched(sample_profile()));
    assert_eq!(step.next, FlowState::Syncing);
    assert!(matches!(step.action, FlowAction::SyncProfile(_)));

    let step = flow_step(step.next, FlowEvent::SyncSucceeded(sample_profile()));
    assert_eq!(step.next, FlowState::Completed);
    match step.action {
        FlowAction::EmitSuccess(p) => assert_eq!(p.login, "octocat"),
        other => panic!("expected the success event, got {:?}", other),
    }
}

#[test]
fn test_timeout_fails_and_clears_entry() {
    // No delivery within the window: the attempt fails with the timeout
    // cause, the transition orders the entry's removal, and the store then
    // holds nothing for the token.
    let step = flow_step(FlowState::AwaitingCallback, FlowEvent::TimedOut);
    assert_eq!(step.next, FlowState::Failed);
    assert!(step.cleanup);
    assert!(matches!(
        step.action,
        FlowAction::EmitError(AuthError::CallbackTimeout)
    ));

    let mut store: CorrelationStore<u32> = CorrelationStore::new();
    assert!(store.register("abc".to_string(), 1));
    assert!(store.expire("abc"));
    assert!(!store.contains("abc"));
    assert_eq!(store.resolve("abc"), None);
}

#[test]
fn test_channel_closed_is_cancellation() {
    let step = flow_step(FlowState::AwaitingCallback, FlowEvent::ChannelClosed);
    assert_eq!(step.next, FlowState::Failed);
    assert!(!step.cleanup);
    assert!(matches!(
        step.action,
        FlowAction::EmitError(AuthError::Cancelled)
    ));
}

#[test]
fn test_exchange_error_prevents_later_steps() {
    // A provider error during the exchange fails the attempt; the machine is
    // then terminal, so no fetch or sync is ever ordered.
    let step = flow_step(
        FlowState::Exchanging,
        FlowEvent::StepFailed(AuthError::GitHubError("status 400".to_string())),
    );
    assert_eq!(step.next, FlowState::Failed);
    assert!(step.cleanup);
    assert!(matches!(
        step.action,
        FlowAction::EmitError(AuthError::GitHubError(_))
    ));

    let step = flow_step(FlowState::Failed, FlowEvent::ProfileFetched(sample_profile()));
    assert_eq!(step.next, FlowState::Failed);
    assert!(matches!(step.action, FlowAction::NoAction));
    let step = flow_step(FlowState::Failed, FlowEvent::SyncSucceeded(sample_profile()));
    assert_eq!(step.next, FlowState::Failed);
    assert!(matches!(step.action, FlowAction::NoAction));
}

#[test]
fn test_sync_failure_emits_error_not_success() {
    let step = flow_step(
        FlowState::Syncing,
        FlowEvent::StepFailed(AuthError::BackendSyncFailed("refused".to_string())),
    );
    assert_eq!(step.next, FlowState::Failed);
    assert!(step.cleanup);
    assert!(matches!(
        step.action,
        FlowAction::EmitError(AuthError::BackendSyncFailed(_))
    ));
}

#[test]
fn test_mismatched_event_is_ignored() {
    let step = flow_step(FlowState::Exchanging, FlowEvent::TimedOut);
    assert_eq!(step.next, FlowState::Exchanging);
    assert!(matches!(step.action, FlowAction::NoAction));
    assert!(!step.cleanup);
}

#[test]
fn test_auth_error_messages() {
    assert_eq!(
        AuthError::CallbackTimeout.message(),
        "the callback timed out or was cancelled"
    );
    assert_eq!(
        AuthError::GitHubError("status 400".to_string()).message(),
        "GitHub returned an error: status 400"
    );
    assert_eq!(
        AuthError::InvalidState.message(),
        "received an invalid CSRF state"
    );
    assert_eq!(
        AuthError::BackendSyncFailed("quota".to_string()).message(),
        "failed to sync the user data to the backend: quota"
    );
}
