//! Roles, sign-in providers, authentication failures and the password
//! strength rule, with the request and response shapes of the auth endpoints.

use vstd::prelude::*;
use crate::validation::byte_len;
use crate::text::{contains_char_in, has_char_in, lower_of, to_lowercase, CharClass};

verus! {

/// Role of a user, for authorization.
#[derive(Clone, Copy, Debug, PartialEq, Eq, Structural)]
pub enum Role {
    User,
    Admin,
}

impl Default for Role {
    fn default() -> (r: Role)
        ensures
            r == Role::User,
    {
        Role::User
    }
}

/// The role named by an already lower-cased text: `admin`, else `user`.
pub open spec fn role_named(t: Seq<char>) -> Role {
    if t == "admin"@ {
        Role::Admin
    } else {
        Role::User
    }
}

impl Role {
    /// Whether the role is `Admin`.
    pub fn is_admin(&self) -> (r: bool)
        ensures
            r == (*self == Role::Admin),
    {
        matches!(self, Role::Admin)
    }

    /// Whether the role is `User`.
    pub fn is_user(&self) -> (r: bool)
        ensures
            r == (*self == Role::User),
    {
        matches!(self, Role::User)
    }

    /// The role named by a lower-cased text.
    pub fn from_lower(t: &str) -> (r: Role)
        ensures
            r == role_named(t@),
    {
        if t.to_owned() == "admin".to_owned() {
            Role::Admin
        } else {
            Role::User
        }
    }

    /// The stored name of the role.
    pub fn as_text(&self) -> (r: &'static str)
        ensures
            r@ == (if *self == Role::Admin { "admin"@ } else { "user"@ }),
    {
        match self {
            Role::User => "user",
            Role::Admin => "admin",
        }
    }
}

impl From<String> for Role {
    /// Reads a role name in any case; anything but `admin` is `User`.
    fn from(s: String) -> (r: Role) {
        Role::from_lower(to_lowercase(s.as_str()).as_str())
    }
}

impl vstd::std_specs::convert::FromSpecImpl<String> for Role {
    open spec fn obeys_from_spec() -> bool {
        true
    }

    open spec fn from_spec(s: String) -> Role {
        role_named(lower_of(s@))
    }
}

/// An external sign-in provider.
#[derive(Clone, Copy, Debug, PartialEq, Eq, Structural)]
pub enum Provider {
    Google,
    GitHub,
}

/// The provider named by an already lower-cased text.
pub open spec fn provider_named(t: Seq<char>) -> Option<Provider> {
    if t == "google"@ {
        Some(Provider::Google)
    } else if t == "github"@ {
        Some(Provider::GitHub)
    } else {
        None
    }
}

impl Provider {
    /// The provider named by a lower-cased text.
    pub fn from_lower(t: &str) -> (r: Option<Provider>)
        ensures
            r == provider_named(t@),
    {
        let owned = t.to_owned();
        if owned == "google".to_owned() {
            Some(Provider::Google)
        } else if owned == "github".to_owned() {
            Some(Provider::GitHub)
        } else {
            None
        }
    }

    /// Reads a provider name in any case.
    pub fn from_str(s: &str) -> (r: Option<Provider>)
        ensures
            r == provider_named(lower_of(s@)),
    {
        Provider::from_lower(to_lowercase(s).as_str())
    }

    /// The lower-case name of the provider.
    pub fn as_str(&self) -> (r: &'static str)
        ensures
            r@ == (if *self == Provider::Google { "google"@ } else { "github"@ }),
    {
        match self {
            Provider::Google => "google",
            Provider::GitHub => "github",
        }
    }
}

/// Failures of authentication and account management.
#[derive(Clone, Debug, PartialEq, Eq)]
pub enum AuthError {
    InvalidCredentials,
    Unauthorized,
    EmailAlreadyExists,
    UserAlreadyExists,
    InvalidToken,
    TokenExpired,
    WeakPassword,
    EmailNotVerified,
    SessionNotFound,
    AccountRecoveryExpired,
    /// A storage failure, with its description.
    Database(String),
    HashError,
    Validation(String),
    Internal,
}

/// The HTTP status and message of an authentication failure.
pub open spec fn auth_answer(e: AuthError) -> (u16, Seq<char>) {
    match e {
        AuthError::InvalidCredentials => (401, "Invalid credentials"@),
        AuthError::Unauthorized => (401, "Unauthorized"@),
        AuthError::EmailAlreadyExists => (409, "Email already exists"@),
        AuthError::UserAlreadyExists => (409, "User already exists"@),
        AuthError::InvalidToken => (401, "Invalid token"@),
        AuthError::TokenExpired => (401, "Token expired"@),
        AuthError::WeakPassword => (400, "Password too weak"@),
        AuthError::EmailNotVerified => (403, "Email not verified"@),
        AuthError::SessionNotFound => (401, "Session not found"@),
        AuthError::AccountRecoveryExpired => (410, "Account recovery period has expired"@),
        AuthError::Database(_) => (500, "Database error"@),
        AuthError::HashError => (500, "Hash error"@),
        AuthError::Internal => (500, "Internal error"@),
        AuthError::Validation(m) => (400, m@),
    }
}

impl AuthError {
    /// The HTTP status and message of this failure; storage details stay hidden.
    pub fn status_and_message(&self) -> (r: (u16, String))
        ensures
            (r.0, r.1@) == auth_answer(*self),
    {
        match self {
            AuthError::InvalidCredentials => (401, "Invalid credentials".to_owned()),
            AuthError::Unauthorized => (401, "Unauthorized".to_owned()),
            AuthError::EmailAlreadyExists => (409, "Email already exists".to_owned()),
            AuthError::UserAlreadyExists => (409, "User already exists".to_owned()),
            AuthError::InvalidToken => (401, "Invalid token".to_owned()),
            AuthError::TokenExpired => (401, "Token expired".to_owned()),
            AuthError::WeakPassword => (400, "Password too weak".to_owned()),
            AuthError::EmailNotVerified => (403, "Email not verified".to_owned()),
            AuthError::SessionNotFound => (401, "Session not found".to_owned()),
            AuthError::AccountRecoveryExpired => (410, "Account recovery period has expired".to_owned()),
            AuthError::Database(_) => (500, "Database error".to_owned()),
            AuthError::HashError => (500, "Hash error".to_owned()),
            AuthError::Internal => (500, "Internal error".to_owned()),
            AuthError::Validation(m) => (400, m.clone()),
        }
    }
}

/// Cost factor of password hashes.
pub const HASH_COST: u32 = 12;

#[verifier::external_type_specification]
#[verifier::external_body]
pub struct ExBcryptError(bcrypt::BcryptError);

/// Whether `password` matches the bcrypt hash `hash`; `None` when the hash
/// cannot be read.
pub uninterp spec fn bcrypt_verdict_of(password: Seq<char>, hash: Seq<char>) -> Option<bool>;

/// Relies on `bcrypt::hash`: a salted hash from OS randomness, 60 characters
/// long, or an error when the cost is outside 4 to 31 or randomness fails.
#[verifier::external_body]
fn bcrypt_hash(password: &str, cost: u32) -> (r: Result<String, bcrypt::BcryptError>)
    ensures
        r matches Ok(h) ==> h@.len() == 60,
{
    bcrypt::hash(password, cost)
}

/// Relies on `bcrypt::verify`: the hash's own salt and cost are used again,
/// so the outcome depends on the password and the hash alone.
#[verifier::external_body]
fn bcrypt_verify(password: &str, hash: &str) -> (r: Result<bool, bcrypt::BcryptError>)
    ensures
        match r {
            Ok(b) => bcrypt_verdict_of(password@, hash@) == Some(b),
            Err(_) => bcrypt_verdict_of(password@, hash@) is None,
        },
{
    bcrypt::verify(password, hash)
}

/// Hashes a password for storage, with a fresh random salt.
pub fn hash_password(password: &str) -> (r: Result<String, AuthError>)
    ensures
        match r {
            Ok(h) => h@.len() == 60,
            Err(e) => e == AuthError::HashError,
        },
{
    match bcrypt_hash(password, HASH_COST) {
        Ok(h) => Ok(h),
        Err(_) => Err(AuthError::HashError),
    }
}

/// The outcome of a password check whose verdict came out as `verdict`.
pub fn password_check_outcome(verdict: Option<bool>) -> (r: Result<bool, AuthError>)
    ensures
        r == match verdict {
            Some(b) => Ok::<bool, AuthError>(b),
            None => Err(AuthError::HashError),
        },
{
    match verdict {
        Some(b) => Ok(b),
        None => Err(AuthError::HashError),
    }
}

/// Checks a password against a stored hash; an unreadable hash is an error.
pub fn verify_password(password: &str, hash: &str) -> (r: Result<bool, AuthError>)
    ensures
        r == match bcrypt_verdict_of(password@, hash@) {
            Some(b) => Ok::<bool, AuthError>(b),
            None => Err(AuthError::HashError),
        },
{
    let verdict = match bcrypt_verify(password, hash) {
        Ok(b) => Some(b),
        Err(_) => None,
    };
    password_check_outcome(verdict)
}

/// Whether a password is strong enough for an account: at least 8 bytes, with
/// at least one character that is not a letter.
pub open spec fn strong_password(password: &str) -> bool {
    &&& byte_len(password@) >= 8
    &&& has_char_in(password@, CharClass::NonAlphabetic)
}

/// Checks that a password is at least 8 bytes long and holds a digit or
/// another non-letter.
pub fn validate_password_strength(password: &str) -> (r: Result<(), AuthError>)
    ensures
        r == (if strong_password(password) { Ok(()) } else { Err(AuthError::WeakPassword) }),
{
    if password.len() < 8 {
        return Err(AuthError::WeakPassword);
    }
    if !contains_char_in(password, CharClass::NonAlphabetic) {
        return Err(AuthError::WeakPassword);
    }
    Ok(())
}

#[derive(Clone, Debug)]
pub struct SignInRequest {
    pub email: String,
    pub password: String,
}

#[derive(Clone, Debug)]
pub struct SignUpRequest {
    pub email: String,
    pub password: String,
    pub name: Option<String>,
    pub username: Option<String>,
}

#[derive(Clone, Debug)]
pub struct RefreshRequest {
    pub session_token: String,
}

#[derive(Clone, Debug)]
pub struct VerifyEmailRequest {
    pub token: Option<String>,
    pub email: Option<String>,
    pub otp: Option<String>,
}

#[derive(Clone, Debug)]
pub struct VerifyEmailResponse {
    pub message: String,
    pub email_verified: bool,
}

#[derive(Clone, Debug)]
pub struct ForgotPasswordRequest {
    pub email: String,
}

#[derive(Clone, Debug)]
pub struct ForgotPasswordResponse {
    pub message: String,
}

#[derive(Clone, Debug)]
pub struct ResetPasswordRequest {
    pub token: String,
    pub new_password: String,
}

#[derive(Clone, Debug)]
pub struct ResetPasswordResponse {
    pub message: String,
}

#[derive(Clone, Debug)]
pub struct ResendVerificationRequest {
    pub email: String,
}

#[derive(Clone, Debug)]
pub struct ResendVerificationResponse {
    pub message: String,
}

#[derive(Clone, Debug)]
pub struct RecoverAccountRequest {
    pub email: String,
    pub password: String,
}

/// Query of the callback from an external sign-in provider.
#[derive(Clone, Debug)]
pub struct OAuthCallbackQuery {
    pub code: String,
    pub state: Option<String>,
}

/// Profile returned by GitHub for the signed-in user.
#[derive(Clone, Debug)]
pub struct GitHubUserInfo {
    pub id: i64,
    pub login: String,
    pub email: Option<String>,
    pub name: Option<String>,
    pub avatar_url: Option<String>,
}

/// One address of a GitHub user.
#[derive(Clone, Debug)]
pub struct GitHubEmail {
    pub email: String,
    pub primary: bool,
    pub verified: bool,
}

/// Profile returned by Google for the signed-in user.
#[derive(Clone, Debug)]
pub struct GoogleUserInfo {
    pub sub: String,
    pub email: String,
    pub name: Option<String>,
    pub picture: Option<String>,
    pub email_verified: bool,
}

} // verus!
