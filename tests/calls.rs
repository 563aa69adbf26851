use opentier_api::calls::{
    bootstrap_mode, channel_settings, correlation_key_text, tag_metadata, CallPlan, ConnectMode,
};
use opentier_api::operations::RemoteOperation;
use opentier_api::timeouts::RpcTimeouts;

fn entry(k: &str, v: &str) -> (String, String) {
    (k.to_string(), v.to_string())
}

#[test]
fn tagging_replaces_an_earlier_id_and_keeps_other_entries() {
    let mut md = vec![entry("a", "1"), entry("x-correlation-id", "old"), entry("b", "2")];
    tag_metadata(&mut md, "new".to_string());
    assert_eq!(md, vec![entry("a", "1"), entry("b", "2"), entry("x-correlation-id", "new")]);
}

#[test]
fn tagging_empty_metadata() {
    let mut md = Vec::new();
    tag_metadata(&mut md, "id".to_string());
    assert_eq!(md, vec![entry("x-correlation-id", "id")]);
    assert_eq!(correlation_key_text(), "x-correlation-id");
}

#[test]
fn every_attempt_of_a_plan_carries_the_same_id() {
    let t = RpcTimeouts::default();
    let plan = CallPlan::new(RemoteOperation::GetConversation, &t, false);
    assert_eq!(plan.correlation_id.len(), 36);
    let first = plan.attempt_metadata();
    let second = plan.attempt_metadata();
    assert_eq!(first, second);
    assert_eq!(first, vec![("x-correlation-id".to_string(), plan.correlation_id.clone())]);
    let other = CallPlan::new(RemoteOperation::GetConversation, &t, false);
    assert_ne!(plan.correlation_id, other.correlation_id);
}

#[test]
fn plans_take_budget_and_retry_permission_from_the_operation() {
    let t = RpcTimeouts::default();
    let chat = CallPlan::with_correlation_id(RemoteOperation::SendMessage, &t, false, "c".to_string());
    assert_eq!(chat.timeout_ms, 1_200_000);
    assert!(!chat.retry_allowed);
    let stream = CallPlan::with_correlation_id(RemoteOperation::StreamChat, &t, true, "s".to_string());
    assert_eq!(stream.timeout_ms, 300_000);
    assert!(!stream.retry_allowed);
    let add = CallPlan::with_correlation_id(RemoteOperation::AddResource, &t, true, "a".to_string());
    assert_eq!(add.timeout_ms, 3_000_000);
    assert!(add.retry_allowed);
    let add_no_key = CallPlan::with_correlation_id(RemoteOperation::AddResource, &t, false, "a".to_string());
    assert!(!add_no_key.retry_allowed);
    let health = CallPlan::with_correlation_id(RemoteOperation::CheckHealth, &t, false, "h".to_string());
    assert_eq!(health.timeout_ms, 5_000);
    assert!(health.retry_allowed);
}

#[test]
fn channel_settings_for_default_budgets() {
    let s = channel_settings(&RpcTimeouts::default());
    assert_eq!(s.request_timeout_ms, 3_000_000);
    assert_eq!(s.connect_timeout_ms, 10_000);
    assert_eq!(s.tcp_keepalive_ms, 60_000);
    assert_eq!(s.http2_keepalive_interval_ms, 30_000);
    assert!(s.keep_alive_while_idle);
}

#[test]
fn bootstrap_falls_back_to_lazy() {
    assert_eq!(bootstrap_mode(true), ConnectMode::Eager);
    assert_eq!(bootstrap_mode(false), ConnectMode::Lazy);
}
