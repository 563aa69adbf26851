use std::collections::HashMap;

use opentier_api::accounts::RateLimitConfig as LimiterPreset;
use opentier_api::auth::{Provider, Role};
use opentier_api::config::{
    parse_bounded, Config, ConfigError, CorsConfig, EmailConfig, EmailService, OAuthConfig, ServerConfig,
};
use opentier_api::accounts::UserError;
use opentier_api::resources::{
    check_json_content_type, ingest_content, ingest_kind, kind_filter, page_limit, resource_title, validate_url,
    AddResourceRequest, IngestContent, Resource, IngestKind, IngestionSettings, ResourceConfig, ResourceError, ResourceStatus,
    ResourceType,
};
use opentier_api::text::{has_prefix, split_trimmed};

#[test]
fn roles() {
    assert_eq!(Role::from("ADMIN".to_string()), Role::Admin);
    assert_eq!(Role::from("Admin".to_string()), Role::Admin);
    assert_eq!(Role::from("moderator".to_string()), Role::User);
    assert!(Role::Admin.is_admin());
    assert!(!Role::Admin.is_user());
    assert!(Role::User.is_user());
    assert_eq!(Role::default(), Role::User);
    assert_eq!(Role::Admin.as_text(), "admin");
    assert_eq!(Role::from_lower("admin"), Role::Admin);
    assert_eq!(Role::from_lower("ADMIN"), Role::User);
}

#[test]
fn providers() {
    assert_eq!(Provider::from_str("Google"), Some(Provider::Google));
    assert_eq!(Provider::from_str("GITHUB"), Some(Provider::GitHub));
    assert_eq!(Provider::from_str("gitlab"), None);
    assert_eq!(Provider::GitHub.as_str(), "github");
    assert_eq!(Provider::Google.as_str(), "google");
    assert_eq!(Provider::from_lower("GitHub"), None);
}

#[test]
fn statuses_and_types() {
    assert_eq!(ResourceStatus::from("COMPLETED".to_string()), ResourceStatus::Completed);
    assert_eq!(ResourceStatus::from("Processing".to_string()), ResourceStatus::Processing);
    assert_eq!(ResourceStatus::from("failed".to_string()), ResourceStatus::Failed);
    assert_eq!(ResourceStatus::from("whatever".to_string()), ResourceStatus::Queued);
    assert_eq!(ResourceType::from("FILE".to_string()), ResourceType::File);
    assert_eq!(ResourceType::from("text".to_string()), ResourceType::Text);
    assert_eq!(ResourceType::from("pdf".to_string()), ResourceType::Url);
}

fn add(kind: &str, content: &str) -> AddResourceRequest {
    AddResourceRequest {
        resource_type: kind.to_string(),
        content: content.to_string(),
        title: None,
        metadata: Some(HashMap::new()),
        config: None,
    }
}

fn no_config() -> ResourceConfig {
    ResourceConfig {
        depth: None,
        chunk_size: None,
        chunk_overlap: None,
        auto_clean: None,
        generate_embeddings: None,
        follow_links: None,
    }
}

#[test]
fn add_resource_validation() {
    assert!(add("URL", "https://example.com").validate().is_ok());
    assert!(add("Markdown", "# title").validate().is_ok());
    assert_eq!(
        add("video", "x").validate(),
        Err(ResourceError::UnsupportedResourceType("video".to_string()))
    );
    assert_eq!(add("text", "").validate(), Err(ResourceError::InvalidContent));
    assert_eq!(add("text", &"x".repeat(10 * 1024 * 1024 + 1)).validate(), Err(ResourceError::ContentTooLarge));
    assert!(add("text", &"x".repeat(10 * 1024 * 1024)).validate().is_ok());
    assert_eq!(
        add("url", "ftp://example.com").validate(),
        Err(ResourceError::InvalidUrl("URL must start with http:// or https://".to_string()))
    );
    assert_eq!(
        add("url", "https://ab").validate(),
        Err(ResourceError::InvalidUrl("URL must have a valid domain".to_string()))
    );
    assert!(add("url", "http://abc").validate().is_ok());
    assert!(add("text", "ftp://example.com").validate().is_ok());
    let mut titled = add("text", "body");
    titled.title = Some("t".repeat(501));
    assert_eq!(
        titled.validate(),
        Err(ResourceError::Validation("Title must be less than 500 characters".to_string()))
    );
    let mut configured = add("text", "body");
    configured.config = Some(ResourceConfig { depth: Some(11), ..no_config() });
    assert_eq!(
        configured.validate(),
        Err(ResourceError::Validation("Depth must be between 0 and 10".to_string()))
    );
}

#[test]
fn resource_config_ranges() {
    assert!(no_config().validate().is_ok());
    assert!(ResourceConfig { depth: Some(0), chunk_size: Some(100), chunk_overlap: Some(1000), ..no_config() }
        .validate()
        .is_ok());
    assert_eq!(
        ResourceConfig { chunk_size: Some(99), ..no_config() }.validate(),
        Err(ResourceError::Validation("Chunk size must be between 100 and 10000".to_string()))
    );
    assert_eq!(
        ResourceConfig { chunk_overlap: Some(-1), ..no_config() }.validate(),
        Err(ResourceError::Validation("Chunk overlap must be between 0 and 1000".to_string()))
    );
    assert!(validate_url("https://abc").is_ok());
}

fn vars(pairs: &[(&str, &str)]) -> Vec<(String, String)> {
    pairs.iter().map(|(k, v)| (k.to_string(), v.to_string())).collect()
}

fn required() -> Vec<(String, String)> {
    vars(&[
        ("DATABASE_URL", "postgres://db"),
        ("GOOGLE_CLIENT_ID", "gid"),
        ("GOOGLE_CLIENT_SECRET", "gsecret"),
        ("GITHUB_CLIENT_ID", "hid"),
        ("GITHUB_CLIENT_SECRET", "hsecret"),
    ])
}

#[test]
fn config_with_defaults() {
    let c = Config::from_env(&required()).unwrap();
    assert_eq!(c.database.url, "postgres://db");
    assert_eq!(c.server.host, "127.0.0.1");
    assert_eq!(c.server.port, 4000);
    assert_eq!(c.oauth.google.client_id, "gid");
    assert_eq!(c.oauth.github.redirect_url, "http://localhost:4000/auth/oauth/github/callback");
    assert_eq!(c.email.smtp_port, 587);
    assert_eq!(c.email.from_email, "noreply@example.com");
    assert_eq!(c.security.session_expiry_seconds, 2592000);
    assert_eq!(c.security.verification_token_expiry_seconds, 86400);
    assert_eq!(c.security.password_reset_token_expiry_seconds, 3600);
    assert_eq!(c.cors.allowed_origins, vec!["http://localhost:3000".to_string()]);
    assert_eq!(c.rate_limit.max_requests, 100);
    assert_eq!(c.rate_limit.window_seconds, 60);
}

#[test]
fn config_reads_overrides() {
    let mut v = required();
    v.extend(vars(&[
        ("SERVER_PORT", "8080"),
        ("SMTP_PORT", "70000"),
        ("RATE_LIMIT_MAX_REQUESTS", "+25"),
        ("RATE_LIMIT_WINDOW_SECONDS", "ten"),
        ("CORS_ALLOWED_ORIGINS", " http://a.test , https://b.test,"),
    ]));
    let c = Config::from_env(&v).unwrap();
    assert_eq!(c.server.port, 8080);
    assert_eq!(c.email.smtp_port, 587);
    assert_eq!(c.rate_limit.max_requests, 25);
    assert_eq!(c.rate_limit.window_seconds, 60);
    assert_eq!(
        CorsConfig::from_env(&v).allowed_origins,
        vec!["http://a.test".to_string(), "https://b.test".to_string(), String::new()]
    );
    assert_eq!(ServerConfig::from_env(&v).port, 8080);
}

#[test]
fn config_requires_database_and_oauth() {
    let v = vars(&[("GOOGLE_CLIENT_ID", "gid")]);
    assert_eq!(Config::from_env(&v).unwrap_err(), ConfigError::Missing("DATABASE_URL".to_string()));
    let mut partial = required();
    partial.retain(|(k, _)| k != "GITHUB_CLIENT_SECRET");
    assert_eq!(
        OAuthConfig::from_env(&partial).unwrap_err(),
        ConfigError::Missing("GITHUB_CLIENT_SECRET".to_string())
    );
}

#[test]
fn bounded_numbers() {
    assert_eq!(parse_bounded("42", 100), Some(42));
    assert_eq!(parse_bounded("+7", 100), Some(7));
    assert_eq!(parse_bounded("", 100), None);
    assert_eq!(parse_bounded("+", 100), None);
    assert_eq!(parse_bounded("-1", 100), None);
    assert_eq!(parse_bounded("101", 100), None);
    assert_eq!(parse_bounded("1x", 100), None);
    assert_eq!(parse_bounded("65535", 65535), Some(65535));
    assert_eq!(parse_bounded("18446744073709551615", u64::MAX), Some(u64::MAX));
    assert_eq!(parse_bounded("18446744073709551616", u64::MAX), None);
    assert_eq!(parse_bounded("007", 10), Some(7));
}

#[test]
fn text_helpers() {
    assert!(has_prefix("https://x", "https://"));
    assert!(!has_prefix("http", "https://"));
    assert_eq!(split_trimmed("a"), vec!["a".to_string()]);
    assert_eq!(split_trimmed(""), vec![String::new()]);
    assert_eq!(split_trimmed(" a ,\tb\n"), vec!["a".to_string(), "b".to_string()]);
}

#[test]
fn email_service_keeps_its_settings() {
    let config = EmailConfig {
        smtp_host: "smtp.test".to_string(),
        smtp_port: 2525,
        smtp_username: "u".to_string(),
        smtp_password: "p".to_string(),
        from_email: "from@test".to_string(),
        frontend_url: "f".to_string(),
        api_url: "a".to_string(),
    };
    let s = EmailService::new(config);
    assert_eq!(s.server(), ("smtp.test", 2525));
    assert_eq!(s.credentials(), ("u", "p"));
    assert_eq!(s.from_address(), "from@test");
}

#[test]
fn limiter_presets() {
    assert_eq!(LimiterPreset::strict(), LimiterPreset { per_second: 20, burst_size: 3 });
    assert_eq!(LimiterPreset::standard(), LimiterPreset { per_second: 6, burst_size: 10 });
}

#[test]
fn json_content_type_required() {
    assert!(check_json_content_type("application/json").is_ok());
    assert!(check_json_content_type("application/json; charset=utf-8").is_ok());
    assert_eq!(
        check_json_content_type("text/plain"),
        Err(ResourceError::InvalidContentType("Expected 'application/json', got 'text/plain'".to_string()))
    );
    assert_eq!(
        check_json_content_type(""),
        Err(ResourceError::InvalidContentType("Expected 'application/json', got ''".to_string()))
    );
}

#[test]
fn listing_page_limits() {
    assert_eq!(page_limit(None), Ok(20));
    assert_eq!(page_limit(Some(1)), Ok(1));
    assert_eq!(page_limit(Some(100)), Ok(100));
    assert_eq!(page_limit(Some(0)), Err(ResourceError::InvalidFilters));
    assert_eq!(page_limit(Some(101)), Err(ResourceError::InvalidFilters));
}

#[test]
fn ingestion_defaults() {
    assert_eq!(
        no_config().with_defaults(),
        IngestionSettings {
            chunk_size: 1000,
            chunk_overlap: 200,
            auto_clean: true,
            generate_embeddings: true,
            max_depth: 1,
            follow_links: false,
        }
    );
    let given = ResourceConfig { depth: Some(3), follow_links: Some(true), chunk_size: Some(500), ..no_config() };
    let s = given.with_defaults();
    assert_eq!((s.max_depth, s.follow_links, s.chunk_size, s.chunk_overlap), (3, true, 500, 200));
}

#[test]
fn titles() {
    assert_eq!(resource_title(&Some("Mine".to_string()), "body"), "Mine");
    assert_eq!(resource_title(&None, "short body"), "short body");
    let long: String = "é".repeat(60);
    assert_eq!(resource_title(&None, &long), "é".repeat(50));
}

#[test]
fn ingest_kinds_and_content() {
    assert_eq!(ingest_kind("url"), IngestKind::Website);
    assert_eq!(ingest_kind("file"), IngestKind::Code);
    assert_eq!(ingest_kind("pdf"), IngestKind::Pdf);
    assert_eq!(ingest_kind("video"), IngestKind::Unspecified);
    assert_eq!(kind_filter("WEBSITE"), IngestKind::Website);
    assert_eq!(kind_filter("url"), IngestKind::Unspecified);
    assert_eq!(IngestKind::Website.name(), "website");
    assert_eq!(IngestKind::Unspecified.name(), "unspecified");
    assert_eq!(ingest_content("url", "https://a.b"), Some(IngestContent::Url("https://a.b".to_string())));
    assert_eq!(ingest_content("markdown", "# x"), Some(IngestContent::Text("# x".to_string())));
    assert_eq!(ingest_content("file", "héllo"), Some(IngestContent::FileContent("héllo".as_bytes().to_vec())));
    assert_eq!(ingest_content("pdf", "x"), None);
}

#[test]
fn user_errors_to_http() {
    assert_eq!(UserError::UsernameAlreadyTaken.status_and_message(), (409, "Username already taken"));
    assert_eq!(UserError::SessionNotFound.status_and_message(), (404, "Session not found"));
    assert_eq!(UserError::Database("x".to_string()).status_and_message(), (500, "Database error"));
}

#[test]
fn resource_lifecycle() {
    let mut r = Resource::new("user-7".to_string(), ResourceType::Text, "hello".to_string());
    assert_eq!(r.id.len(), 36);
    assert_eq!(r.status, ResourceStatus::Queued);
    assert_eq!(r.created_at, r.updated_at);
    assert!(r.created_at > 1_600_000_000);
    assert!(!r.is_completed());
    r.mark_processing("job-1".to_string());
    assert_eq!(r.status, ResourceStatus::Processing);
    assert_eq!(r.job_id.as_deref(), Some("job-1"));
    r.mark_completed(3, 42);
    assert!(r.is_completed());
    assert_eq!((r.documents_count, r.chunks_count), (3, 42));
    assert_eq!(r.job_id.as_deref(), Some("job-1"));
    r.mark_failed("boom".to_string());
    assert_eq!(r.status, ResourceStatus::Failed);
    assert_eq!(r.error.as_deref(), Some("boom"));
    assert_eq!(r.user_id, "user-7");
    assert!(r.updated_at >= r.created_at);
}
