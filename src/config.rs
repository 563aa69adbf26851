//! Gateway configuration, assembled from a snapshot of environment variables
//! with defaults for the optional ones.

use vstd::prelude::*;
use crate::text::{comma_pieces, split_trimmed, trim_of};

verus! {

/// The value of variable `name` in a snapshot: the first entry with that name.
pub open spec fn env_lookup(vars: Seq<(String, String)>, name: Seq<char>) -> Option<Seq<char>>
    decreases vars.len(),
{
    if vars.len() == 0 {
        None
    } else if vars[0].0@ == name {
        Some(vars[0].1@)
    } else {
        env_lookup(vars.drop_first(), name)
    }
}

/// Looks a variable up in a snapshot of the environment.
pub fn lookup(vars: &Vec<(String, String)>, name: &str) -> (r: Option<String>)
    ensures
        match r {
            Some(v) => env_lookup(vars@, name@) == Some(v@),
            None => env_lookup(vars@, name@) is None,
        },
{
    let key = name.to_owned();
    let mut i: usize = 0;
    assert(vars@.subrange(0, vars@.len() as int) =~= vars@);
    while i < vars.len()
        invariant
            key@ == name@,
            i <= vars.len(),
            env_lookup(vars@, name@) == env_lookup(vars@.subrange(i as int, vars@.len() as int), name@),
        decreases vars.len() - i,
    {
        let ghost rest = vars@.subrange(i as int, vars@.len() as int);
        assert(rest[0] == vars@[i as int]);
        assert(rest.drop_first() =~= vars@.subrange(i + 1, vars@.len() as int));
        if vars[i].0 == key {
            return Some(vars[i].1.clone());
        }
        i = i + 1;
    }
    None
}

/// The value of a decimal digit character, 10 for any other character.
pub open spec fn digit_value(c: char) -> nat {
    if '0' <= c && c <= '9' {
        (c as u32 - '0' as u32) as nat
    } else {
        10
    }
}

/// The number written by a sequence of decimal digits.
pub open spec fn digits_value(s: Seq<char>) -> nat
    decreases s.len(),
{
    if s.len() == 0 {
        0
    } else {
        digits_value(s.drop_last()) * 10 + digit_value(s.last())
    }
}

/// Whether every character is a decimal digit.
pub open spec fn all_digits(s: Seq<char>) -> bool {
    forall|i: int| 0 <= i < s.len() ==> digit_value(#[trigger] s[i]) < 10
}

/// The unsigned number that a text writes: an optional `+`, then one or more
/// decimal digits.
pub open spec fn unsigned_text(s: Seq<char>) -> Option<nat> {
    if number_body(s).len() > 0 && all_digits(number_body(s)) {
        Some(digits_value(number_body(s)))
    } else {
        None
    }
}

/// The text after an optional leading `+`.
pub open spec fn number_body(s: Seq<char>) -> Seq<char> {
    if s.len() > 0 && s[0] == '+' {
        s.drop_first()
    } else {
        s
    }
}

/// The number that a text writes if it is at most `max`.
pub open spec fn bounded_text(s: Seq<char>, max: u64) -> Option<u64> {
    match unsigned_text(s) {
        Some(v) => if v <= max { Some(v as u64) } else { None },
        None => None,
    }
}

proof fn lemma_digits_grow(s: Seq<char>, i: int)
    requires
        all_digits(s),
        0 <= i <= s.len(),
    ensures
        digits_value(s.subrange(0, i)) <= digits_value(s),
    decreases s.len() - i,
{
    if i < s.len() {
        lemma_digits_grow(s, i + 1);
        let p = s.subrange(0, i + 1);
        assert(p.drop_last() =~= s.subrange(0, i));
        assert(digit_value(p.last()) < 10);
    } else {
        assert(s.subrange(0, i) =~= s);
    }
}

/// Reads an unsigned decimal number no larger than `max`.
pub fn parse_bounded(text: &str, max: u64) -> (r: Option<u64>)
    ensures
        r == bounded_text(text@, max),
{
    let chars = crate::text::chars_of(text);
    let mut start: usize = 0;
    if chars.len() > 0 && chars[0] == '+' {
        start = 1;
    }
    let ghost body = number_body(text@);
    proof {
        assert(body =~= chars@.subrange(start as int, chars@.len() as int));
    }
    if start >= chars.len() {
        return None;
    }
    let mut value: u64 = 0;
    let mut i: usize = start;
    while i < chars.len()
        invariant
            chars@ == text@,
            start <= i <= chars.len(),
            start < chars.len(),
            body =~= chars@.subrange(start as int, chars@.len() as int),
            body == number_body(text@),
            all_digits(chars@.subrange(start as int, i as int)),
            value == digits_value(chars@.subrange(start as int, i as int)),
            value <= max,
        decreases chars.len() - i,
    {
        let c = chars[i];
        let ghost prefix = chars@.subrange(start as int, i + 1);
        assert(prefix.drop_last() =~= chars@.subrange(start as int, i as int));
        if c < '0' || c > '9' {
            proof {
                assert(body[i - start] == c);
                assert(digit_value(body[i - start]) == 10);
                assert(!all_digits(body));
                assert(unsigned_text(text@) is None);
            }
            return None;
        }
        let d = (c as u32 - '0' as u32) as u64;
        if d > max || value > (max - d) / 10 {
            proof {
                assert(value * 10 + d > max) by (nonlinear_arith)
                    requires d > max || value > (max - d) / 10, d <= 9, value >= 0;
            }
            assert(prefix.last() == c);
            assert(digit_value(c) == d);
            assert(digits_value(prefix) == value * 10 + d);
            if all_digits_from(&chars, i + 1) {
                proof {
                    assert forall|k: int| 0 <= k < body.len() implies digit_value(#[trigger] body[k]) < 10 by {
                        assert(body[k] == chars@[start + k]);
                        if k < i - start {
                            assert(chars@.subrange(start as int, i as int)[k] == chars@[start + k]);
                        }
                    }
                    assert(body.subrange(0, i + 1 - start) =~= prefix);
                    lemma_digits_grow(body, i + 1 - start);
                }
            } else {
                proof {
                    let k = choose|k: int| i + 1 <= k < chars.len() && digit_value(#[trigger] chars@[k]) >= 10;
                    assert(body[k - start] == chars@[k]);
                    assert(!all_digits(body));
                }
            }
            return None;
        }
        value = value * 10 + d;
        i = i + 1;
        proof {
            assert forall|k: int| 0 <= k < prefix.len() implies digit_value(#[trigger] prefix[k]) < 10 by {
                if k < prefix.len() - 1 {
                    assert(prefix[k] == chars@.subrange(start as int, (i - 1) as int)[k]);
                }
            }
        }
    }
    proof {
        assert(chars@.subrange(start as int, chars@.len() as int) =~= body);
    }
    Some(value)
}

/// Whether every character from position `from` on is a decimal digit.
fn all_digits_from(chars: &Vec<char>, from: usize) -> (r: bool)
    requires
        from <= chars.len(),
    ensures
        r == (forall|k: int| from <= k < chars.len() ==> digit_value(#[trigger] chars@[k]) < 10),
{
    let mut i = from;
    while i < chars.len()
        invariant
            from <= i <= chars.len(),
            forall|k: int| from <= k < i ==> digit_value(#[trigger] chars@[k]) < 10,
        decreases chars.len() - i,
    {
        if chars[i] < '0' || chars[i] > '9' {
            return false;
        }
        i = i + 1;
    }
    true
}

/// A required variable that is not set.
#[derive(Clone, Debug, PartialEq, Eq)]
pub enum ConfigError {
    /// The name of the missing variable.
    Missing(String),
}

/// The value of an optional text variable, or `default`.
pub open spec fn text_or(vars: Seq<(String, String)>, name: Seq<char>, default: Seq<char>) -> Seq<char> {
    match env_lookup(vars, name) {
        Some(v) => v,
        None => default,
    }
}

/// The value of an optional number variable no larger than `max`, or
/// `default` when it is unset or not such a number.
pub open spec fn number_or(vars: Seq<(String, String)>, name: Seq<char>, max: u64, default: u64) -> u64 {
    match env_lookup(vars, name) {
        Some(v) => match bounded_text(v, max) {
            Some(n) => n,
            None => default,
        },
        None => default,
    }
}

fn text_var_or(vars: &Vec<(String, String)>, name: &str, default: &str) -> (r: String)
    ensures
        r@ == text_or(vars@, name@, default@),
{
    match lookup(vars, name) {
        Some(v) => v,
        None => default.to_owned(),
    }
}

fn number_var_or(vars: &Vec<(String, String)>, name: &str, max: u64, default: u64) -> (r: u64)
    ensures
        r == number_or(vars@, name@, max, default),
        default <= max ==> r <= max,
{
    match lookup(vars, name) {
        Some(v) => match parse_bounded(v.as_str(), max) {
            Some(n) => n,
            None => default,
        },
        None => default,
    }
}

fn required_var(vars: &Vec<(String, String)>, name: &str) -> (r: Result<String, ConfigError>)
    ensures
        match env_lookup(vars@, name@) {
            Some(v) => r matches Ok(t) && t@ == v,
            None => r matches Err(ConfigError::Missing(n)) && n@ == name@,
        },
{
    match lookup(vars, name) {
        Some(v) => Ok(v),
        None => Err(ConfigError::Missing(name.to_owned())),
    }
}

/// The first required variable that is missing, in the order database,
/// Google id, Google secret, GitHub id, GitHub secret.
pub open spec fn first_missing(vars: Seq<(String, String)>, names: Seq<Seq<char>>) -> Option<Seq<char>>
    decreases names.len(),
{
    if names.len() == 0 {
        None
    } else if env_lookup(vars, names[0]) is None {
        Some(names[0])
    } else {
        first_missing(vars, names.drop_first())
    }
}

proof fn lemma_first_missing_concat(vars: Seq<(String, String)>, a: Seq<Seq<char>>, b: Seq<Seq<char>>)
    ensures
        first_missing(vars, a + b) == match first_missing(vars, a) {
            Some(n) => Some(n),
            None => first_missing(vars, b),
        },
    decreases a.len(),
{
    if a.len() == 0 {
        assert(a + b =~= b);
    } else {
        assert((a + b)[0] == a[0]);
        assert((a + b).drop_first() =~= a.drop_first() + b);
        lemma_first_missing_concat(vars, a.drop_first(), b);
    }
}

proof fn lemma_first_missing_one(vars: Seq<(String, String)>, a: Seq<char>)
    ensures
        first_missing(vars, seq![a]) == if env_lookup(vars, a) is None { Some(a) } else { None },
{
    assert(seq![a][0] == a);
    assert(seq![a].drop_first() =~= Seq::<Seq<char>>::empty());
    assert(first_missing(vars, Seq::<Seq<char>>::empty()) is None);
}

proof fn lemma_first_missing_two(vars: Seq<(String, String)>, a: Seq<char>, b: Seq<char>)
    ensures
        first_missing(vars, seq![a, b]) == if env_lookup(vars, a) is None {
            Some(a)
        } else if env_lookup(vars, b) is None {
            Some(b)
        } else {
            None
        },
{
    assert(seq![a, b][0] == a);
    assert(seq![a, b].drop_first() =~= seq![b]);
    lemma_first_missing_one(vars, b);
}

/// The required variables of the Google client, in the order they are read.
pub open spec fn google_required() -> Seq<Seq<char>> {
    seq!["GOOGLE_CLIENT_ID"@, "GOOGLE_CLIENT_SECRET"@]
}

/// The required variables of the GitHub client, in the order they are read.
pub open spec fn github_required() -> Seq<Seq<char>> {
    seq!["GITHUB_CLIENT_ID"@, "GITHUB_CLIENT_SECRET"@]
}

/// Every required variable, in the order it is read.
pub open spec fn all_required() -> Seq<Seq<char>> {
    seq!["DATABASE_URL"@] + google_required() + github_required()
}

/// `r` is the outcome of reading a part that needs the variables `names`:
/// a failure naming the first one that is missing, or a part that `ok` accepts.
pub open spec fn read_outcome<T>(
    vars: Seq<(String, String)>,
    names: Seq<Seq<char>>,
    r: Result<T, ConfigError>,
    ok: spec_fn(T) -> bool,
) -> bool {
    match first_missing(vars, names) {
        Some(n) => r matches Err(ConfigError::Missing(m)) && m@ == n,
        None => r matches Ok(v) && ok(v),
    }
}

/// Where the database lives.
#[derive(Clone, Debug)]
pub struct DatabaseConfig {
    pub url: String,
}

/// Where the gateway listens.
#[derive(Clone, Debug)]
pub struct ServerConfig {
    pub host: String,
    pub port: u16,
}

/// Credentials of the Google sign-in client.
#[derive(Clone, Debug)]
pub struct GoogleOAuthConfig {
    pub client_id: String,
    pub client_secret: String,
    pub redirect_url: String,
}

/// Credentials of the GitHub sign-in client.
#[derive(Clone, Debug)]
pub struct GitHubOAuthConfig {
    pub client_id: String,
    pub client_secret: String,
    pub redirect_url: String,
}

/// Credentials of both sign-in providers.
#[derive(Clone, Debug)]
pub struct OAuthConfig {
    pub google: GoogleOAuthConfig,
    pub github: GitHubOAuthConfig,
}

/// Outgoing mail settings and the public addresses that mails link to.
#[derive(Clone, Debug)]
pub struct EmailConfig {
    pub smtp_host: String,
    pub smtp_port: u16,
    pub smtp_username: String,
    pub smtp_password: String,
    pub from_email: String,
    pub frontend_url: String,
    pub api_url: String,
}

/// Lifetimes of sessions and one-time tokens, in seconds.
#[derive(Clone, Copy, Debug)]
pub struct SecurityConfig {
    pub session_expiry_seconds: u64,
    pub verification_token_expiry_seconds: u64,
    pub password_reset_token_expiry_seconds: u64,
}

/// Origins allowed to call the gateway from a browser.
#[derive(Clone, Debug)]
pub struct CorsConfig {
    pub allowed_origins: Vec<String>,
}

/// Request budget per client and window.
#[derive(Clone, Copy, Debug)]
pub struct RateLimitConfig {
    pub max_requests: u32,
    pub window_seconds: u64,
}

/// The whole configuration of the gateway.
#[derive(Clone, Debug)]
pub struct Config {
    pub database: DatabaseConfig,
    pub server: ServerConfig,
    pub oauth: OAuthConfig,
    pub email: EmailConfig,
    pub security: SecurityConfig,
    pub cors: CorsConfig,
    pub rate_limit: RateLimitConfig,
}

/// `c` is the server part read from `vars`.
pub open spec fn server_from(vars: Seq<(String, String)>, c: ServerConfig) -> bool {
    &&& c.host@ == text_or(vars, "SERVER_HOST"@, "127.0.0.1"@)
    &&& c.port == number_or(vars, "SERVER_PORT"@, u16::MAX as u64, 4000)
}

/// `c` is the Google part read from `vars`, whose required variables are set.
pub open spec fn google_from(vars: Seq<(String, String)>, c: GoogleOAuthConfig) -> bool {
    &&& Some(c.client_id@) == env_lookup(vars, "GOOGLE_CLIENT_ID"@)
    &&& Some(c.client_secret@) == env_lookup(vars, "GOOGLE_CLIENT_SECRET"@)
    &&& c.redirect_url@ == text_or(vars, "GOOGLE_REDIRECT_URL"@, "http://localhost:4000/auth/oauth/google/callback"@)
}

/// `c` is the GitHub part read from `vars`, whose required variables are set.
pub open spec fn github_from(vars: Seq<(String, String)>, c: GitHubOAuthConfig) -> bool {
    &&& Some(c.client_id@) == env_lookup(vars, "GITHUB_CLIENT_ID"@)
    &&& Some(c.client_secret@) == env_lookup(vars, "GITHUB_CLIENT_SECRET"@)
    &&& c.redirect_url@ == text_or(vars, "GITHUB_REDIRECT_URL"@, "http://localhost:4000/auth/oauth/github/callback"@)
}

/// `c` is the mail part read from `vars`.
pub open spec fn email_from(vars: Seq<(String, String)>, c: EmailConfig) -> bool {
    &&& c.smtp_host@ == text_or(vars, "SMTP_HOST"@, "localhost"@)
    &&& c.smtp_port == number_or(vars, "SMTP_PORT"@, u16::MAX as u64, 587)
    &&& c.smtp_username@ == text_or(vars, "SMTP_USERNAME"@, ""@)
    &&& c.smtp_password@ == text_or(vars, "SMTP_PASSWORD"@, ""@)
    &&& c.from_email@ == text_or(vars, "FROM_EMAIL"@, "noreply@example.com"@)
    &&& c.frontend_url@ == text_or(vars, "FRONTEND_URL"@, "http://localhost:3000"@)
    &&& c.api_url@ == text_or(vars, "API_URL"@, "http://localhost:4000"@)
}

/// `c` is the security part read from `vars`.
pub open spec fn security_from(vars: Seq<(String, String)>, c: SecurityConfig) -> bool {
    &&& c.session_expiry_seconds == number_or(vars, "SESSION_EXPIRY_SECONDS"@, u64::MAX, 2592000)
    &&& c.verification_token_expiry_seconds == number_or(vars, "VERIFICATION_TOKEN_EXPIRY_SECONDS"@, u64::MAX, 86400)
    &&& c.password_reset_token_expiry_seconds == number_or(vars, "PASSWORD_RESET_TOKEN_EXPIRY_SECONDS"@, u64::MAX, 3600)
}

/// `c` is the CORS part read from `vars`.
pub open spec fn cors_from(vars: Seq<(String, String)>, c: CorsConfig) -> bool {
    c.allowed_origins@.map_values(|p: String| p@) == comma_pieces(
        text_or(vars, "CORS_ALLOWED_ORIGINS"@, "http://localhost:3000"@),
    ).map_values(|p: Seq<char>| trim_of(p))
}

/// `c` is the rate-limit part read from `vars`.
pub open spec fn rate_limit_from(vars: Seq<(String, String)>, c: RateLimitConfig) -> bool {
    &&& c.max_requests == number_or(vars, "RATE_LIMIT_MAX_REQUESTS"@, u32::MAX as u64, 100)
    &&& c.window_seconds == number_or(vars, "RATE_LIMIT_WINDOW_SECONDS"@, u64::MAX, 60)
}

/// `c` is the whole configuration read from `vars`.
pub open spec fn config_from(vars: Seq<(String, String)>, c: Config) -> bool {
    &&& Some(c.database.url@) == env_lookup(vars, "DATABASE_URL"@)
    &&& server_from(vars, c.server)
    &&& google_from(vars, c.oauth.google)
    &&& github_from(vars, c.oauth.github)
    &&& email_from(vars, c.email)
    &&& security_from(vars, c.security)
    &&& cors_from(vars, c.cors)
    &&& rate_limit_from(vars, c.rate_limit)
}

impl DatabaseConfig {
    /// Reads `DATABASE_URL`, which is required.
    pub fn from_env(vars: &Vec<(String, String)>) -> (r: Result<DatabaseConfig, ConfigError>)
        ensures
            read_outcome(vars@, seq!["DATABASE_URL"@], r, |c: DatabaseConfig| Some(c.url@) == env_lookup(vars@, "DATABASE_URL"@)),
    {
        proof {
            lemma_first_missing_one(vars@, "DATABASE_URL"@);
        }
        let url = required_var(vars, "DATABASE_URL")?;
        Ok(DatabaseConfig { url })
    }
}

impl ServerConfig {
    /// Reads `SERVER_HOST` (default 127.0.0.1) and `SERVER_PORT` (default 4000).
    pub fn from_env(vars: &Vec<(String, String)>) -> (r: ServerConfig)
        ensures
            server_from(vars@, r),
    {
        ServerConfig {
            host: text_var_or(vars, "SERVER_HOST", "127.0.0.1"),
            port: number_var_or(vars, "SERVER_PORT", u16::MAX as u64, 4000) as u16,
        }
    }
}

impl GoogleOAuthConfig {
    /// Reads the Google client id and secret, both required, and the redirect URL.
    pub fn from_env(vars: &Vec<(String, String)>) -> (r: Result<GoogleOAuthConfig, ConfigError>)
        ensures
            read_outcome(vars@, google_required(), r, |c: GoogleOAuthConfig| google_from(vars@, c)),
    {
        proof {
            lemma_first_missing_two(vars@, "GOOGLE_CLIENT_ID"@, "GOOGLE_CLIENT_SECRET"@);
        }
        let client_id = required_var(vars, "GOOGLE_CLIENT_ID")?;
        let client_secret = required_var(vars, "GOOGLE_CLIENT_SECRET")?;
        let redirect_url = text_var_or(vars, "GOOGLE_REDIRECT_URL", "http://localhost:4000/auth/oauth/google/callback");
        Ok(GoogleOAuthConfig { client_id, client_secret, redirect_url })
    }
}

impl GitHubOAuthConfig {
    /// Reads the GitHub client id and secret, both required, and the redirect URL.
    pub fn from_env(vars: &Vec<(String, String)>) -> (r: Result<GitHubOAuthConfig, ConfigError>)
        ensures
            read_outcome(vars@, github_required(), r, |c: GitHubOAuthConfig| github_from(vars@, c)),
    {
        proof {
            lemma_first_missing_two(vars@, "GITHUB_CLIENT_ID"@, "GITHUB_CLIENT_SECRET"@);
        }
        let client_id = required_var(vars, "GITHUB_CLIENT_ID")?;
        let client_secret = required_var(vars, "GITHUB_CLIENT_SECRET")?;
        let redirect_url = text_var_or(vars, "GITHUB_REDIRECT_URL", "http://localhost:4000/auth/oauth/github/callback");
        Ok(GitHubOAuthConfig { client_id, client_secret, redirect_url })
    }
}

impl OAuthConfig {
    /// Reads the credentials of both providers.
    pub fn from_env(vars: &Vec<(String, String)>) -> (r: Result<OAuthConfig, ConfigError>)
        ensures
            read_outcome(
                vars@,
                google_required() + github_required(),
                r,
                |c: OAuthConfig| google_from(vars@, c.google) && github_from(vars@, c.github),
            ),
    {
        proof {
            lemma_first_missing_concat(vars@, google_required(), github_required());
        }
        let google = GoogleOAuthConfig::from_env(vars)?;
        let github = GitHubOAuthConfig::from_env(vars)?;
        Ok(OAuthConfig { google, github })
    }
}

impl EmailConfig {
    /// Reads the mail settings; every one has a default.
    pub fn from_env(vars: &Vec<(String, String)>) -> (r: EmailConfig)
        ensures
            email_from(vars@, r),
    {
        EmailConfig {
            smtp_host: text_var_or(vars, "SMTP_HOST", "localhost"),
            smtp_port: number_var_or(vars, "SMTP_PORT", u16::MAX as u64, 587) as u16,
            smtp_username: text_var_or(vars, "SMTP_USERNAME", ""),
            smtp_password: text_var_or(vars, "SMTP_PASSWORD", ""),
            from_email: text_var_or(vars, "FROM_EMAIL", "noreply@example.com"),
            frontend_url: text_var_or(vars, "FRONTEND_URL", "http://localhost:3000"),
            api_url: text_var_or(vars, "API_URL", "http://localhost:4000"),
        }
    }
}

impl SecurityConfig {
    /// Reads the lifetimes: 30 days for sessions, 24 hours for verification
    /// tokens and one hour for password reset tokens by default.
    pub fn from_env(vars: &Vec<(String, String)>) -> (r: SecurityConfig)
        ensures
            security_from(vars@, r),
    {
        SecurityConfig {
            session_expiry_seconds: number_var_or(vars, "SESSION_EXPIRY_SECONDS", u64::MAX, 2592000),
            verification_token_expiry_seconds: number_var_or(vars, "VERIFICATION_TOKEN_EXPIRY_SECONDS", u64::MAX, 86400),
            password_reset_token_expiry_seconds: number_var_or(
                vars,
                "PASSWORD_RESET_TOKEN_EXPIRY_SECONDS",
                u64::MAX,
                3600,
            ),
        }
    }
}

impl CorsConfig {
    /// Reads `CORS_ALLOWED_ORIGINS`, a comma-separated list (default
    /// http://localhost:3000), trimming each origin.
    pub fn from_env(vars: &Vec<(String, String)>) -> (r: CorsConfig)
        ensures
            cors_from(vars@, r),
    {
        let origins = text_var_or(vars, "CORS_ALLOWED_ORIGINS", "http://localhost:3000");
        CorsConfig { allowed_origins: split_trimmed(origins.as_str()) }
    }
}

impl RateLimitConfig {
    /// Reads the request budget: 100 requests per 60-second window by default.
    pub fn from_env(vars: &Vec<(String, String)>) -> (r: RateLimitConfig)
        ensures
            rate_limit_from(vars@, r),
    {
        RateLimitConfig {
            max_requests: number_var_or(vars, "RATE_LIMIT_MAX_REQUESTS", u32::MAX as u64, 100) as u32,
            window_seconds: number_var_or(vars, "RATE_LIMIT_WINDOW_SECONDS", u64::MAX, 60),
        }
    }
}

impl Config {
    /// Assembles the configuration from a snapshot of the environment; fails,
    /// naming it, on the first required variable that is missing.
    pub fn from_env(vars: &Vec<(String, String)>) -> (r: Result<Config, ConfigError>)
        ensures
            read_outcome(vars@, all_required(), r, |c: Config| config_from(vars@, c)),
    {
        proof {
            lemma_first_missing_concat(vars@, seq!["DATABASE_URL"@], google_required() + github_required());
            assert(all_required() =~= seq!["DATABASE_URL"@] + (google_required() + github_required()));
            lemma_first_missing_concat(vars@, google_required(), github_required());
        }
        let database = DatabaseConfig::from_env(vars)?;
        let server = ServerConfig::from_env(vars);
        let oauth = OAuthConfig::from_env(vars)?;
        let email = EmailConfig::from_env(vars);
        let security = SecurityConfig::from_env(vars);
        let cors = CorsConfig::from_env(vars);
        let rate_limit = RateLimitConfig::from_env(vars);
        Ok(Config { database, server, oauth, email, security, cors, rate_limit })
    }
}

/// Sender of account mails, holding the mail server's address and credentials.
#[derive(Clone, Debug)]
pub struct EmailService {
    smtp_host: String,
    smtp_port: u16,
    smtp_username: String,
    smtp_password: String,
    from_email: String,
}

impl EmailService {
    /// The server address and credentials that this service sends through.
    pub closed spec fn settings(&self) -> (Seq<char>, u16, Seq<char>, Seq<char>, Seq<char>) {
        (self.smtp_host@, self.smtp_port, self.smtp_username@, self.smtp_password@, self.from_email@)
    }

    /// A service that sends with the mail settings of `config`.
    pub fn new(config: EmailConfig) -> (r: EmailService)
        ensures
            r.settings() == (
                config.smtp_host@,
                config.smtp_port,
                config.smtp_username@,
                config.smtp_password@,
                config.from_email@,
            ),
    {
        EmailService {
            smtp_host: config.smtp_host,
            smtp_port: config.smtp_port,
            smtp_username: config.smtp_username,
            smtp_password: config.smtp_password,
            from_email: config.from_email,
        }
    }

    /// Host and port of the mail server.
    pub fn server(&self) -> (r: (&str, u16))
        ensures
            r.0@ == self.settings().0,
            r.1 == self.settings().1,
    {
        (self.smtp_host.as_str(), self.smtp_port)
    }

    /// User name and password for the mail server.
    pub fn credentials(&self) -> (r: (&str, &str))
        ensures
            r.0@ == self.settings().2,
            r.1@ == self.settings().3,
    {
        (self.smtp_username.as_str(), self.smtp_password.as_str())
    }

    /// The sender address of outgoing mails.
    pub fn from_address(&self) -> (r: &str)
        ensures
            r@ == self.settings().4,
    {
        self.from_email.as_str()
    }
}

} // verus!
