//! Request and response shapes of the user, admin and health endpoints, and
//! the rate-limit presets.

use vstd::prelude::*;

verus! {

/// Failures of the user endpoints.
#[derive(Clone, Debug, PartialEq, Eq)]
pub enum UserError {
    NotFound,
    Unauthorized,
    UsernameAlreadyTaken,
    InvalidCurrentPassword,
    SessionNotFound,
    /// A storage failure, with its description.
    Database(String),
    Internal,
}

/// The HTTP status and message of a user failure.
pub open spec fn user_answer(e: UserError) -> (u16, Seq<char>) {
    match e {
        UserError::NotFound => (404, "User not found"@),
        UserError::Unauthorized => (401, "Unauthorized"@),
        UserError::UsernameAlreadyTaken => (409, "Username already taken"@),
        UserError::InvalidCurrentPassword => (401, "Invalid current password"@),
        UserError::SessionNotFound => (404, "Session not found"@),
        UserError::Database(_) => (500, "Database error"@),
        UserError::Internal => (500, "Internal server error"@),
    }
}

impl UserError {
    /// The HTTP status and message of this failure; storage details stay hidden.
    pub fn status_and_message(&self) -> (r: (u16, &'static str))
        ensures
            (r.0, r.1@) == user_answer(*self),
    {
        match self {
            UserError::NotFound => (404, "User not found"),
            UserError::Unauthorized => (401, "Unauthorized"),
            UserError::UsernameAlreadyTaken => (409, "Username already taken"),
            UserError::InvalidCurrentPassword => (401, "Invalid current password"),
            UserError::SessionNotFound => (404, "Session not found"),
            UserError::Database(_) => (500, "Database error"),
            UserError::Internal => (500, "Internal server error"),
        }
    }
}

/// Counters shown to administrators.
#[derive(Clone, Copy, Debug, PartialEq, Eq, Structural)]
pub struct AdminStats {
    pub total_users: i32,
    pub active_users_24h: i32,
    pub total_conversations: i32,
    pub total_messages: i32,
}

/// Query of the administrators' user listing.
#[derive(Clone, Debug)]
pub struct UserListQuery {
    pub limit: Option<i64>,
    pub offset: Option<i64>,
    pub search: Option<String>,
}

/// A change of a user's role.
#[derive(Clone, Debug)]
pub struct UpdateRoleRequest {
    pub role: String,
}

/// A change of the caller's profile; absent fields stay as they are.
#[derive(Clone, Debug)]
pub struct UpdateProfileRequest {
    pub name: Option<String>,
    pub username: Option<String>,
    pub avatar_url: Option<String>,
}

/// A change of the caller's password.
#[derive(Clone, Debug)]
pub struct ChangePasswordRequest {
    pub current_password: String,
    pub new_password: String,
}

#[derive(Clone, Debug)]
pub struct ChangePasswordResponse {
    pub message: String,
}

#[derive(Clone, Debug)]
pub struct DeleteAccountResponse {
    pub message: String,
}

/// Answer of the gateway's own health probe.
#[derive(Clone, Debug)]
pub struct HealthResponse {
    pub status: String,
    pub version: String,
    pub uptime_seconds: u64,
}

/// Token-bucket settings of a rate limiter: one token every `per_second`
/// seconds, at most `burst_size` at once.
#[derive(Clone, Copy, Debug, PartialEq, Eq, Structural)]
pub struct RateLimitConfig {
    pub per_second: u64,
    pub burst_size: u32,
}

impl RateLimitConfig {
    /// About three requests a minute, for password resets and account recovery.
    pub fn strict() -> (r: RateLimitConfig)
        ensures
            r == (RateLimitConfig { per_second: 20, burst_size: 3 }),
    {
        RateLimitConfig { per_second: 20, burst_size: 3 }
    }

    /// About ten requests a minute, for sign-in and sign-up.
    pub fn standard() -> (r: RateLimitConfig)
        ensures
            r == (RateLimitConfig { per_second: 6, burst_size: 10 }),
    {
        RateLimitConfig { per_second: 6, burst_size: 10 }
    }
}

} // verus!
