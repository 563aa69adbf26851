use opentier_api::auth::AuthError;
use opentier_api::chat::{default_limit, default_max_tokens, default_message_limit, default_use_rag, validate_chat_message};
use opentier_api::errors::{decimal_text, map_grpc_status, CallFailure, ChatError, FailureClass, HttpError};
use opentier_api::resources::ResourceError;
use opentier_api::retry::RpcCode;

fn http(status: u16, error: &str, message: &str) -> HttpError {
    HttpError { status, error: error.to_string(), message: message.to_string() }
}

#[test]
fn permanent_failures_keep_the_remote_message() {
    assert_eq!(map_grpc_status(RpcCode::NotFound, "no such conversation"), http(404, "not_found", "no such conversation"));
    assert_eq!(map_grpc_status(RpcCode::InvalidArgument, "bad"), http(400, "invalid_argument", "bad"));
    assert_eq!(map_grpc_status(RpcCode::PermissionDenied, "no"), http(403, "permission_denied", "no"));
    assert_eq!(map_grpc_status(RpcCode::Unauthenticated, "who"), http(401, "unauthenticated", "who"));
    assert_eq!(map_grpc_status(RpcCode::AlreadyExists, "dup"), http(409, "already_exists", "dup"));
}

#[test]
fn transient_failures_get_fixed_messages() {
    assert_eq!(
        map_grpc_status(RpcCode::ResourceExhausted, "x"),
        http(429, "rate_limited", "Too many requests, please try again later")
    );
    assert_eq!(map_grpc_status(RpcCode::DeadlineExceeded, "x"), http(504, "timeout", "Request timed out"));
    assert_eq!(
        map_grpc_status(RpcCode::Unavailable, "x"),
        http(503, "service_unavailable", "Intelligence service temporarily unavailable")
    );
    assert_eq!(map_grpc_status(RpcCode::Internal, "x"), http(502, "upstream_error", "Intelligence service unavailable"));
}

#[test]
fn chat_errors_to_http() {
    assert_eq!(
        ChatError::ConversationNotFound("c1".to_string()).to_http(),
        http(404, "conversation_not_found", "Conversation not found: c1")
    );
    assert_eq!(
        ChatError::MessageTooLong(10001, 10000).to_http(),
        http(400, "message_too_long", "Message too long: 10001 chars (max: 10000)")
    );
    assert_eq!(
        ChatError::GrpcError(RpcCode::NotFound, "gone".to_string()).to_http(),
        http(404, "not_found", "gone")
    );
    assert_eq!(
        ChatError::GrpcTransportError("refused".to_string()).to_http(),
        http(503, "service_unavailable", "Intelligence service unavailable")
    );
    assert_eq!(
        ChatError::DatabaseError("secret detail".to_string()).to_http(),
        http(500, "internal_error", "An internal error occurred")
    );
    assert_eq!(ChatError::RequestTimeout("slow".to_string()).to_http(), http(504, "timeout", "Request timeout: slow"));
}

#[test]
fn decimal_texts() {
    assert_eq!(decimal_text(0), "0");
    assert_eq!(decimal_text(9), "9");
    assert_eq!(decimal_text(10), "10");
    assert_eq!(decimal_text(1234567), "1234567");
    assert_eq!(decimal_text(usize::MAX), usize::MAX.to_string());
}

#[test]
fn chat_message_checks() {
    assert!(matches!(validate_chat_message(""), Err(ChatError::InvalidMessage(m)) if m == "Message cannot be empty"));
    assert!(validate_chat_message(&"x".repeat(10000)).is_ok());
    assert_eq!(validate_chat_message(&"x".repeat(10001)), Err(ChatError::MessageTooLong(10001, 10000)));
    assert_eq!(default_limit(), 20);
    assert_eq!(default_message_limit(), 100);
    assert!(default_use_rag());
    assert_eq!(default_max_tokens(), 1000);
}

#[test]
fn auth_errors_to_http() {
    assert_eq!(AuthError::WeakPassword.status_and_message(), (400, "Password too weak".to_string()));
    assert_eq!(AuthError::AccountRecoveryExpired.status_and_message().0, 410);
    assert_eq!(AuthError::Database("x".to_string()).status_and_message(), (500, "Database error".to_string()));
    assert_eq!(AuthError::Validation("bad input".to_string()).status_and_message(), (400, "bad input".to_string()));
}

#[test]
fn resource_errors_to_http() {
    assert_eq!(
        ResourceError::UnsupportedResourceType("video".to_string()).status_and_message(),
        (400, "Unsupported resource type: video".to_string())
    );
    assert_eq!(ResourceError::ContentTooLarge.status_and_message(), (413, "Content too large".to_string()));
    assert_eq!(ResourceError::InvalidContentType("text/x".to_string()).status_and_message(), (415, "text/x".to_string()));
    assert_eq!(ResourceError::Unauthorized.status_and_message(), (403, "Insufficient permissions".to_string()));
}

#[test]
fn failure_taxonomy() {
    let transient = CallFailure::Status(RpcCode::DeadlineExceeded, "slow".to_string());
    assert_eq!(transient.class(), FailureClass::Transient);
    assert!(transient.may_retry(true));
    assert!(!transient.may_retry(false));
    let permanent = CallFailure::Status(RpcCode::AlreadyExists, "dup".to_string());
    assert_eq!(permanent.class(), FailureClass::Permanent);
    assert!(!permanent.may_retry(true));
    assert_eq!(CallFailure::Transport("reset".to_string()).class(), FailureClass::Transport);
    assert!(!CallFailure::Transport("reset".to_string()).may_retry(true));
    assert_eq!(CallFailure::Integrity("checksum".to_string()).class(), FailureClass::Integrity);
    assert!(!CallFailure::Integrity("checksum".to_string()).may_retry(true));
    assert_eq!(CallFailure::Status(RpcCode::Internal, "x".to_string()).class(), FailureClass::Other);
}
