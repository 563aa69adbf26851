//! Classification of call failures into HTTP answers with stable error codes.

use vstd::prelude::*;
use crate::retry::RpcCode;

verus! {

/// An HTTP error answer: status, stable error code and human-readable message.
#[derive(Clone, Debug, PartialEq, Eq)]
pub struct HttpError {
    pub status: u16,
    pub error: String,
    pub message: String,
}

impl View for HttpError {
    type V = (u16, Seq<char>, Seq<char>);

    open spec fn view(&self) -> (u16, Seq<char>, Seq<char>) {
        (self.status, self.error@, self.message@)
    }
}

/// The HTTP answer to a failure with `code` and remote message `message`:
/// permanent failures keep the remote message, transient and unexpected ones
/// get a fixed text.
pub open spec fn grpc_answer(code: RpcCode, message: Seq<char>) -> (u16, Seq<char>, Seq<char>) {
    match code {
        RpcCode::NotFound => (404, "not_found"@, message),
        RpcCode::InvalidArgument => (400, "invalid_argument"@, message),
        RpcCode::PermissionDenied => (403, "permission_denied"@, message),
        RpcCode::Unauthenticated => (401, "unauthenticated"@, message),
        RpcCode::ResourceExhausted => (429, "rate_limited"@, "Too many requests, please try again later"@),
        RpcCode::DeadlineExceeded => (504, "timeout"@, "Request timed out"@),
        RpcCode::Unavailable => (503, "service_unavailable"@, "Intelligence service temporarily unavailable"@),
        RpcCode::AlreadyExists => (409, "already_exists"@, message),
        _ => (502, "upstream_error"@, "Intelligence service unavailable"@),
    }
}

fn answer(status: u16, error: &str, message: String) -> (r: HttpError)
    ensures
        r@ == (status, error@, message@),
{
    HttpError { status, error: error.to_owned(), message }
}

/// Maps a failure of the remote service to its HTTP answer.
pub fn map_grpc_status(code: RpcCode, message: &str) -> (r: HttpError)
    ensures
        r@ == grpc_answer(code, message@),
{
    match code {
        RpcCode::NotFound => answer(404, "not_found", message.to_owned()),
        RpcCode::InvalidArgument => answer(400, "invalid_argument", message.to_owned()),
        RpcCode::PermissionDenied => answer(403, "permission_denied", message.to_owned()),
        RpcCode::Unauthenticated => answer(401, "unauthenticated", message.to_owned()),
        RpcCode::ResourceExhausted => answer(
            429,
            "rate_limited",
            "Too many requests, please try again later".to_owned(),
        ),
        RpcCode::DeadlineExceeded => answer(504, "timeout", "Request timed out".to_owned()),
        RpcCode::Unavailable => answer(
            503,
            "service_unavailable",
            "Intelligence service temporarily unavailable".to_owned(),
        ),
        RpcCode::AlreadyExists => answer(409, "already_exists", message.to_owned()),
        _ => answer(502, "upstream_error", "Intelligence service unavailable".to_owned()),
    }
}

/// Classes of failure of a remote call.
#[derive(Clone, Copy, Debug, PartialEq, Eq, Structural)]
pub enum FailureClass {
    /// The channel could not be established or died: fatal to the call.
    Transport,
    /// Unavailable, deadline exceeded, resource exhausted or aborted.
    Transient,
    /// Invalid argument, not found, permission denied, unauthenticated or
    /// already exists: surfaced as it is.
    Permanent,
    /// The uploaded payload did not match its checksum.
    Integrity,
    /// Any other status from the service.
    Other,
}

/// A failure of a remote call.
#[derive(Clone, Debug, PartialEq, Eq)]
pub enum CallFailure {
    /// The transport failed, with a description.
    Transport(String),
    /// The service answered with a status code and message.
    Status(RpcCode, String),
    /// The service rejected an upload whose checksum did not match.
    Integrity(String),
}

/// The class of a failure.
pub open spec fn failure_class(f: CallFailure) -> FailureClass {
    match f {
        CallFailure::Transport(_) => FailureClass::Transport,
        CallFailure::Integrity(_) => FailureClass::Integrity,
        CallFailure::Status(code, _) => match code {
            RpcCode::Unavailable | RpcCode::DeadlineExceeded | RpcCode::ResourceExhausted | RpcCode::Aborted => {
                FailureClass::Transient
            },
            RpcCode::InvalidArgument
            | RpcCode::NotFound
            | RpcCode::PermissionDenied
            | RpcCode::Unauthenticated
            | RpcCode::AlreadyExists => FailureClass::Permanent,
            _ => FailureClass::Other,
        },
    }
}

impl CallFailure {
    /// The class of this failure.
    pub fn class(&self) -> (r: FailureClass)
        ensures
            r == failure_class(*self),
    {
        match self {
            CallFailure::Transport(_) => FailureClass::Transport,
            CallFailure::Integrity(_) => FailureClass::Integrity,
            CallFailure::Status(code, _) => match code {
                RpcCode::Unavailable | RpcCode::DeadlineExceeded | RpcCode::ResourceExhausted | RpcCode::Aborted => {
                    FailureClass::Transient
                },
                RpcCode::InvalidArgument
                | RpcCode::NotFound
                | RpcCode::PermissionDenied
                | RpcCode::Unauthenticated
                | RpcCode::AlreadyExists => FailureClass::Permanent,
                _ => FailureClass::Other,
            },
        }
    }

    /// Whether this layer may re-issue the call after this failure: only a
    /// transient failure of a call that may be retried.
    pub fn may_retry(&self, retry_allowed: bool) -> (r: bool)
        ensures
            r == (retry_allowed && failure_class(*self) == FailureClass::Transient),
            r ==> (self matches CallFailure::Status(code, _) && code.is_transient_spec()),
    {
        retry_allowed && self.class() == FailureClass::Transient
    }
}

/// The decimal digit for `d`.
pub open spec fn digit_char(d: nat) -> char {
    if d == 0 { '0' }
    else if d == 1 { '1' }
    else if d == 2 { '2' }
    else if d == 3 { '3' }
    else if d == 4 { '4' }
    else if d == 5 { '5' }
    else if d == 6 { '6' }
    else if d == 7 { '7' }
    else if d == 8 { '8' }
    else { '9' }
}

/// The decimal text of `n`, without leading zeros.
pub open spec fn decimal(n: nat) -> Seq<char>
    decreases n,
{
    if n < 10 {
        seq![digit_char(n)]
    } else {
        decimal(n / 10).push(digit_char(n % 10))
    }
}

fn digit_text(d: usize) -> (r: &'static str)
    requires
        d < 10,
    ensures
        r@ == seq![digit_char(d as nat)],
{
    proof {
        reveal_strlit("0");
        reveal_strlit("1");
        reveal_strlit("2");
        reveal_strlit("3");
        reveal_strlit("4");
        reveal_strlit("5");
        reveal_strlit("6");
        reveal_strlit("7");
        reveal_strlit("8");
        reveal_strlit("9");
    }
    if d == 0 { "0" }
    else if d == 1 { "1" }
    else if d == 2 { "2" }
    else if d == 3 { "3" }
    else if d == 4 { "4" }
    else if d == 5 { "5" }
    else if d == 6 { "6" }
    else if d == 7 { "7" }
    else if d == 8 { "8" }
    else { "9" }
}

/// The decimal text of `n`.
pub fn decimal_text(n: usize) -> (r: String)
    ensures
        r@ == decimal(n as nat),
    decreases n,
{
    if n < 10 {
        digit_text(n).to_owned()
    } else {
        let mut s = decimal_text(n / 10);
        s.append(digit_text(n % 10));
        s
    }
}

/// Failures of a chat request, as the HTTP layer sees them.
#[derive(Clone, Debug, PartialEq, Eq)]
pub enum ChatError {
    ConversationNotFound(String),
    InvalidMessage(String),
    /// The remote service answered with a failure code and message.
    GrpcError(RpcCode, String),
    /// The channel to the remote service could not be used.
    GrpcTransportError(String),
    DatabaseError(String),
    SerializationError(String),
    InternalError(String),
    /// Length of the message and the maximum, in characters.
    MessageTooLong(usize, usize),
    ServiceUnavailable(String),
    RequestTimeout(String),
}

/// The HTTP answer to a chat failure. Internal failures hide their details.
pub open spec fn chat_answer(e: ChatError) -> (u16, Seq<char>, Seq<char>) {
    match e {
        ChatError::ConversationNotFound(id) => (404, "conversation_not_found"@, "Conversation not found: "@ + id@),
        ChatError::InvalidMessage(m) => (400, "invalid_message"@, "Invalid message: "@ + m@),
        ChatError::MessageTooLong(len, max) => (
            400,
            "message_too_long"@,
            "Message too long: "@ + decimal(len as nat) + " chars (max: "@ + decimal(max as nat) + ")"@,
        ),
        ChatError::GrpcError(code, m) => grpc_answer(code, m@),
        ChatError::GrpcTransportError(_) => (503, "service_unavailable"@, "Intelligence service unavailable"@),
        ChatError::ServiceUnavailable(m) => (503, "service_unavailable"@, "Service unavailable: "@ + m@),
        ChatError::RequestTimeout(m) => (504, "timeout"@, "Request timeout: "@ + m@),
        ChatError::DatabaseError(_) | ChatError::SerializationError(_) | ChatError::InternalError(_) => (
            500,
            "internal_error"@,
            "An internal error occurred"@,
        ),
    }
}

fn prefixed(prefix: &str, rest: &str) -> (r: String)
    ensures
        r@ == prefix@ + rest@,
{
    let mut s = prefix.to_owned();
    s.append(rest);
    s
}

impl ChatError {
    /// The HTTP answer to this failure.
    pub fn to_http(&self) -> (r: HttpError)
        ensures
            r@ == chat_answer(*self),
    {
        match self {
            ChatError::ConversationNotFound(id) => answer(
                404,
                "conversation_not_found",
                prefixed("Conversation not found: ", id.as_str()),
            ),
            ChatError::InvalidMessage(m) => answer(400, "invalid_message", prefixed("Invalid message: ", m.as_str())),
            ChatError::MessageTooLong(len, max) => {
                let mut s = "Message too long: ".to_owned();
                s.append(decimal_text(*len).as_str());
                s.append(" chars (max: ");
                s.append(decimal_text(*max).as_str());
                s.append(")");
                answer(400, "message_too_long", s)
            },
            ChatError::GrpcError(code, m) => map_grpc_status(*code, m.as_str()),
            ChatError::GrpcTransportError(_) => answer(
                503,
                "service_unavailable",
                "Intelligence service unavailable".to_owned(),
            ),
            ChatError::ServiceUnavailable(m) => answer(
                503,
                "service_unavailable",
                prefixed("Service unavailable: ", m.as_str()),
            ),
            ChatError::RequestTimeout(m) => answer(504, "timeout", prefixed("Request timeout: ", m.as_str())),
            ChatError::DatabaseError(_) | ChatError::SerializationError(_) | ChatError::InternalError(_) => answer(
                500,
                "internal_error",
                "An internal error occurred".to_owned(),
            ),
        }
    }
}

} // verus!
