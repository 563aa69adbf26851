use opentier_api::operations::{retry_permitted, Idempotency, RemoteOperation};
use opentier_api::retry::{is_retryable, AttemptOutcome, RetryConfig, RetryState, RetryStep, RpcCode};
use opentier_api::timeouts::{OperationClass, RpcTimeouts};

#[test]
fn default_retry_config() {
    let c = RetryConfig::default();
    assert_eq!(c.max_retries, 3);
    assert_eq!(c.initial_backoff, 100);
    assert_eq!(c.max_backoff, 10_000);
    assert_eq!(c.backoff_multiplier, 2);
}

#[test]
fn backoff_doubles_until_the_cap() {
    let c = RetryConfig::default();
    let mut b = c.initial_backoff;
    let mut seen = vec![b];
    for _ in 0..10 {
        b = c.next_backoff(b);
        seen.push(b);
    }
    assert_eq!(seen, vec![100, 200, 400, 800, 1600, 3200, 6400, 10_000, 10_000, 10_000, 10_000]);
    for w in seen.windows(2) {
        assert!(w[0] < w[1] || w[1] == c.max_backoff);
        assert!(w[1] <= c.max_backoff);
    }
}

#[test]
fn backoff_does_not_overflow() {
    let c = RetryConfig { max_retries: 3, initial_backoff: 1, max_backoff: u64::MAX, backoff_multiplier: 3 };
    assert_eq!(c.next_backoff(u64::MAX / 2), u64::MAX);
    assert_eq!(c.next_backoff(5), 15);
}

#[test]
fn transient_codes() {
    for code in [RpcCode::Unavailable, RpcCode::DeadlineExceeded, RpcCode::ResourceExhausted, RpcCode::Aborted] {
        assert!(is_retryable(code));
    }
    for code in [
        RpcCode::InvalidArgument,
        RpcCode::NotFound,
        RpcCode::PermissionDenied,
        RpcCode::Unauthenticated,
        RpcCode::AlreadyExists,
        RpcCode::Internal,
        RpcCode::Success,
    ] {
        assert!(!is_retryable(code));
    }
}

#[test]
fn codes_from_wire_numbers() {
    assert_eq!(RpcCode::from_number(0), RpcCode::Success);
    assert_eq!(RpcCode::from_number(4), RpcCode::DeadlineExceeded);
    assert_eq!(RpcCode::from_number(14), RpcCode::Unavailable);
    assert_eq!(RpcCode::from_number(16), RpcCode::Unauthenticated);
    assert_eq!(RpcCode::from_number(2), RpcCode::Unknown);
    assert_eq!(RpcCode::from_number(99), RpcCode::Unknown);
}

/// Drives a retry state against scripted outcomes; returns the final step and
/// the number of attempts made.
fn run(config: &RetryConfig, allowed: bool, outcomes: &[AttemptOutcome]) -> (RetryStep, usize, Vec<u64>) {
    let mut state = RetryState::new(config);
    let mut waits = Vec::new();
    for (i, o) in outcomes.iter().enumerate() {
        match state.on_outcome(config, allowed, *o) {
            RetryStep::WaitAndRetry(ms) => waits.push(ms),
            step => return (step, i + 1, waits),
        }
    }
    panic!("outcomes ran out");
}

#[test]
fn idempotent_call_recovers_after_transient_failures() {
    let c = RetryConfig::default();
    let allowed = retry_permitted(RemoteOperation::GetConversation.idempotency(), false);
    assert!(allowed);
    let outcomes = [
        AttemptOutcome::Failed(RpcCode::Unavailable),
        AttemptOutcome::Failed(RpcCode::DeadlineExceeded),
        AttemptOutcome::Succeeded,
        AttemptOutcome::Succeeded,
    ];
    let (step, attempts, waits) = run(&c, allowed, &outcomes);
    assert_eq!(step, RetryStep::Finish);
    assert_eq!(attempts, 3);
    assert_eq!(waits, vec![100, 200]);
}

#[test]
fn non_idempotent_call_surfaces_first_transient_failure() {
    let c = RetryConfig::default();
    let allowed = retry_permitted(RemoteOperation::SendMessage.idempotency(), false);
    assert!(!allowed);
    let outcomes = [AttemptOutcome::Failed(RpcCode::Unavailable), AttemptOutcome::Succeeded];
    let (step, attempts, waits) = run(&c, allowed, &outcomes);
    assert_eq!(step, RetryStep::Surface(RpcCode::Unavailable));
    assert_eq!(attempts, 1);
    assert!(waits.is_empty());
}

#[test]
fn exhausted_retries_surface_the_last_transient_failure() {
    let c = RetryConfig::default();
    let outcomes = [
        AttemptOutcome::Failed(RpcCode::Unavailable),
        AttemptOutcome::Failed(RpcCode::Unavailable),
        AttemptOutcome::Failed(RpcCode::ResourceExhausted),
        AttemptOutcome::Failed(RpcCode::Aborted),
        AttemptOutcome::Succeeded,
    ];
    let (step, attempts, waits) = run(&c, true, &outcomes);
    assert_eq!(step, RetryStep::Surface(RpcCode::Aborted));
    assert_eq!(attempts, 4);
    assert_eq!(waits, vec![100, 200, 400]);
}

#[test]
fn permanent_failure_is_not_retried() {
    let c = RetryConfig::default();
    let outcomes = [AttemptOutcome::Failed(RpcCode::NotFound), AttemptOutcome::Succeeded];
    let (step, attempts, _) = run(&c, true, &outcomes);
    assert_eq!(step, RetryStep::Surface(RpcCode::NotFound));
    assert_eq!(attempts, 1);
}

#[test]
fn keyed_creation_is_retried_only_with_its_key() {
    let idem = RemoteOperation::AddResource.idempotency();
    assert_eq!(idem, Idempotency::IdempotentWithKey);
    assert!(retry_permitted(idem, true));
    assert!(!retry_permitted(idem, false));
}

#[test]
fn operations_have_fixed_classes_and_idempotency() {
    assert_eq!(RemoteOperation::SendMessage.class(), OperationClass::Interactive);
    assert_eq!(RemoteOperation::StreamChat.class(), OperationClass::Streaming);
    assert_eq!(RemoteOperation::ChunkedUpload.class(), OperationClass::Bulk);
    assert_eq!(RemoteOperation::ListResources.class(), OperationClass::Bulk);
    assert_eq!(RemoteOperation::CheckReady.class(), OperationClass::Health);
    assert_eq!(RemoteOperation::StreamChat.idempotency(), Idempotency::NonIdempotent);
    assert_eq!(RemoteOperation::ChunkedUpload.idempotency(), Idempotency::NonIdempotent);
    assert_eq!(RemoteOperation::DeleteResource.idempotency(), Idempotency::Idempotent);
    assert_eq!(RemoteOperation::CancelIngestion.idempotency(), Idempotency::Idempotent);
    assert_eq!(RemoteOperation::GenerateTitle.idempotency(), Idempotency::Idempotent);
}

#[test]
fn default_timeouts_per_class() {
    let t = RpcTimeouts::default();
    assert_eq!(t.budget_for(OperationClass::Interactive), 1_200_000);
    assert_eq!(t.budget_for(OperationClass::Streaming), 300_000);
    assert_eq!(t.budget_for(OperationClass::Bulk), 3_000_000);
    assert_eq!(t.budget_for(OperationClass::Health), 5_000);
    assert_eq!(t.channel_timeout(), 3_000_000);
    let custom = RpcTimeouts { chat: 7, stream: 9, resource: 8, health: 100 };
    assert_eq!(custom.channel_timeout(), 9);
}
