//! Ingestion resources: their status and type, validation of add requests,
//! failures and the request and response shapes of the resource endpoints.

use vstd::prelude::*;
use vstd::string::StringSliceAdditionalSpecFns;
use std::collections::HashMap;
use crate::text::{chars_of, has_prefix, lower_of, starts_with, string_from_chars, to_lowercase};
use crate::validation::byte_len;
use crate::ids::{new_uuid_text, UUID_TEXT_LEN};

verus! {

/// Largest accepted resource content, in bytes: 10 MiB.
pub const MAX_CONTENT_SIZE: usize = 10 * 1024 * 1024;
/// Longest accepted title, in bytes.
pub const MAX_TITLE_LENGTH: usize = 500;

/// Relies on `chrono::Utc::now` and `DateTime::timestamp`: the current time in
/// whole seconds since the Unix epoch, of which nothing is promised.
#[verifier::external_body]
fn now_unix_seconds() -> (r: i64) {
    chrono::Utc::now().timestamp()
}

/// Processing status of an ingested resource.
#[derive(Clone, Copy, Debug, PartialEq, Eq, Structural)]
pub enum ResourceStatus {
    Queued,
    Processing,
    Completed,
    Failed,
}

/// The status named by a lower-cased text; unknown names read as `Queued`.
pub open spec fn status_named(t: Seq<char>) -> ResourceStatus {
    if t == "processing"@ {
        ResourceStatus::Processing
    } else if t == "completed"@ {
        ResourceStatus::Completed
    } else if t == "failed"@ {
        ResourceStatus::Failed
    } else {
        ResourceStatus::Queued
    }
}

impl ResourceStatus {
    /// The status named by a lower-cased text.
    pub fn from_lower(t: &str) -> (r: ResourceStatus)
        ensures
            r == status_named(t@),
    {
        let owned = t.to_owned();
        if owned == "processing".to_owned() {
            ResourceStatus::Processing
        } else if owned == "completed".to_owned() {
            ResourceStatus::Completed
        } else if owned == "failed".to_owned() {
            ResourceStatus::Failed
        } else {
            ResourceStatus::Queued
        }
    }
}

impl From<String> for ResourceStatus {
    /// Reads a status name in any case.
    fn from(s: String) -> (r: ResourceStatus) {
        ResourceStatus::from_lower(to_lowercase(s.as_str()).as_str())
    }
}

impl vstd::std_specs::convert::FromSpecImpl<String> for ResourceStatus {
    open spec fn obeys_from_spec() -> bool {
        true
    }

    open spec fn from_spec(s: String) -> ResourceStatus {
        status_named(lower_of(s@))
    }
}

/// Kind of an ingested resource.
#[derive(Clone, Copy, Debug, PartialEq, Eq, Structural)]
pub enum ResourceType {
    Url,
    File,
    Text,
}

/// The type named by a lower-cased text; unknown names read as `Url`.
pub open spec fn type_named(t: Seq<char>) -> ResourceType {
    if t == "file"@ {
        ResourceType::File
    } else if t == "text"@ {
        ResourceType::Text
    } else {
        ResourceType::Url
    }
}

impl ResourceType {
    /// The type named by a lower-cased text.
    pub fn from_lower(t: &str) -> (r: ResourceType)
        ensures
            r == type_named(t@),
    {
        let owned = t.to_owned();
        if owned == "file".to_owned() {
            ResourceType::File
        } else if owned == "text".to_owned() {
            ResourceType::Text
        } else {
            ResourceType::Url
        }
    }
}

impl From<String> for ResourceType {
    /// Reads a type name in any case.
    fn from(s: String) -> (r: ResourceType) {
        ResourceType::from_lower(to_lowercase(s.as_str()).as_str())
    }
}

impl vstd::std_specs::convert::FromSpecImpl<String> for ResourceType {
    open spec fn obeys_from_spec() -> bool {
        true
    }

    open spec fn from_spec(s: String) -> ResourceType {
        type_named(lower_of(s@))
    }
}

/// An ingested resource; times are seconds since the Unix epoch.
#[derive(Clone, Debug)]
pub struct Resource {
    pub id: String,
    pub user_id: String,
    pub resource_type: ResourceType,
    pub content: String,
    /// Free-form metadata as JSON text.
    pub metadata: Option<String>,
    pub status: ResourceStatus,
    pub job_id: Option<String>,
    pub error: Option<String>,
    pub documents_count: i32,
    pub chunks_count: i32,
    pub created_at: i64,
    pub updated_at: i64,
}

/// `b` is `a` with only its status, job, error, counts and update time possibly changed.
pub open spec fn same_identity(a: Resource, b: Resource) -> bool {
    &&& b.id == a.id
    &&& b.user_id == a.user_id
    &&& b.resource_type == a.resource_type
    &&& b.content == a.content
    &&& b.metadata == a.metadata
    &&& b.created_at == a.created_at
}

impl Resource {
    /// A queued resource with a fresh id, created now.
    pub fn new(user_id: String, resource_type: ResourceType, content: String) -> (r: Resource)
        ensures
            r.id@.len() == UUID_TEXT_LEN,
            r.user_id == user_id,
            r.resource_type == resource_type,
            r.content == content,
            r.metadata is None,
            r.status == ResourceStatus::Queued,
            r.job_id is None,
            r.error is None,
            r.documents_count == 0,
            r.chunks_count == 0,
            r.created_at == r.updated_at,
    {
        let now = now_unix_seconds();
        Resource {
            id: new_uuid_text(),
            user_id,
            resource_type,
            content,
            metadata: None,
            status: ResourceStatus::Queued,
            job_id: None,
            error: None,
            documents_count: 0,
            chunks_count: 0,
            created_at: now,
            updated_at: now,
        }
    }

    /// Records that ingestion job `job_id` has started.
    pub fn mark_processing(&mut self, job_id: String)
        ensures
            same_identity(*old(self), *final(self)),
            final(self).status == ResourceStatus::Processing,
            final(self).job_id == Some(job_id),
            final(self).error == old(self).error,
            final(self).documents_count == old(self).documents_count,
            final(self).chunks_count == old(self).chunks_count,
    {
        self.status = ResourceStatus::Processing;
        self.job_id = Some(job_id);
        self.updated_at = now_unix_seconds();
    }

    /// Records a finished ingestion and what it produced.
    pub fn mark_completed(&mut self, documents: i32, chunks: i32)
        ensures
            same_identity(*old(self), *final(self)),
            final(self).status == ResourceStatus::Completed,
            final(self).documents_count == documents,
            final(self).chunks_count == chunks,
            final(self).job_id == old(self).job_id,
            final(self).error == old(self).error,
    {
        self.status = ResourceStatus::Completed;
        self.documents_count = documents;
        self.chunks_count = chunks;
        self.updated_at = now_unix_seconds();
    }

    /// Records a failed ingestion and why.
    pub fn mark_failed(&mut self, error: String)
        ensures
            same_identity(*old(self), *final(self)),
            final(self).status == ResourceStatus::Failed,
            final(self).error == Some(error),
            final(self).job_id == old(self).job_id,
            final(self).documents_count == old(self).documents_count,
            final(self).chunks_count == old(self).chunks_count,
    {
        self.status = ResourceStatus::Failed;
        self.error = Some(error);
        self.updated_at = now_unix_seconds();
    }

    /// Whether ingestion has completed.
    pub fn is_completed(&self) -> (r: bool)
        ensures
            r == (self.status == ResourceStatus::Completed),
    {
        matches!(self.status, ResourceStatus::Completed)
    }
}

/// Failures of the resource endpoints.
#[derive(Clone, Debug, PartialEq, Eq)]
pub enum ResourceError {
    UnsupportedResourceType(String),
    InvalidContent,
    InvalidUrl(String),
    ContentTooLarge,
    ResourceNotFound,
    AddResourceFailed,
    ListResourcesFailed,
    GetStatusFailed,
    DeleteResourceFailed,
    InvalidFilters,
    Unauthorized,
    GrpcError(String),
    /// A storage failure, with its description.
    Database(String),
    Validation(String),
    Internal,
    InvalidContentType(String),
}

/// The HTTP status and message of a resource failure.
pub open spec fn resource_answer(e: ResourceError) -> (u16, Seq<char>) {
    match e {
        ResourceError::UnsupportedResourceType(t) => (400, "Unsupported resource type: "@ + t@),
        ResourceError::InvalidContent => (400, "Invalid resource content"@),
        ResourceError::InvalidUrl(m) => (400, "URL validation failed: "@ + m@),
        ResourceError::ContentTooLarge => (413, "Content too large"@),
        ResourceError::ResourceNotFound => (404, "Resource not found"@),
        ResourceError::AddResourceFailed => (500, "Failed to add resource"@),
        ResourceError::ListResourcesFailed => (500, "Failed to list resources"@),
        ResourceError::GetStatusFailed => (500, "Failed to get resource status"@),
        ResourceError::DeleteResourceFailed => (500, "Failed to delete resource"@),
        ResourceError::InvalidFilters => (400, "Invalid filter parameters"@),
        ResourceError::Unauthorized => (403, "Insufficient permissions"@),
        ResourceError::GrpcError(m) => (500, "Service error: "@ + m@),
        ResourceError::Database(_) => (500, "Database error"@),
        ResourceError::Validation(m) => (400, m@),
        ResourceError::InvalidContentType(m) => (415, m@),
        ResourceError::Internal => (500, "Internal server error"@),
    }
}

fn joined(prefix: &str, rest: &str) -> (r: String)
    ensures
        r@ == prefix@ + rest@,
{
    let mut s = prefix.to_owned();
    s.append(rest);
    s
}

impl ResourceError {
    /// The HTTP status and message of this failure.
    pub fn status_and_message(&self) -> (r: (u16, String))
        ensures
            (r.0, r.1@) == resource_answer(*self),
    {
        match self {
            ResourceError::UnsupportedResourceType(t) => (400, joined("Unsupported resource type: ", t.as_str())),
            ResourceError::InvalidContent => (400, "Invalid resource content".to_owned()),
            ResourceError::InvalidUrl(m) => (400, joined("URL validation failed: ", m.as_str())),
            ResourceError::ContentTooLarge => (413, "Content too large".to_owned()),
            ResourceError::ResourceNotFound => (404, "Resource not found".to_owned()),
            ResourceError::AddResourceFailed => (500, "Failed to add resource".to_owned()),
            ResourceError::ListResourcesFailed => (500, "Failed to list resources".to_owned()),
            ResourceError::GetStatusFailed => (500, "Failed to get resource status".to_owned()),
            ResourceError::DeleteResourceFailed => (500, "Failed to delete resource".to_owned()),
            ResourceError::InvalidFilters => (400, "Invalid filter parameters".to_owned()),
            ResourceError::Unauthorized => (403, "Insufficient permissions".to_owned()),
            ResourceError::GrpcError(m) => (500, joined("Service error: ", m.as_str())),
            ResourceError::Database(_) => (500, "Database error".to_owned()),
            ResourceError::Validation(m) => (400, m.clone()),
            ResourceError::InvalidContentType(m) => (415, m.clone()),
            ResourceError::Internal => (500, "Internal server error".to_owned()),
        }
    }
}

/// Ingestion settings that a caller may attach to an add request.
#[derive(Clone, Copy, Debug, PartialEq, Eq, Structural)]
pub struct ResourceConfig {
    pub depth: Option<i32>,
    pub chunk_size: Option<i32>,
    pub chunk_overlap: Option<i32>,
    pub auto_clean: Option<bool>,
    pub generate_embeddings: Option<bool>,
    pub follow_links: Option<bool>,
}

/// Why an ingestion config is refused, if it is: crawl depth 0 to 10, chunk
/// size 100 to 10000, chunk overlap 0 to 1000.
pub open spec fn config_problem(c: ResourceConfig) -> Option<Seq<char>> {
    if c.depth matches Some(d) && (d < 0 || d > 10) {
        Some("Depth must be between 0 and 10"@)
    } else if c.chunk_size matches Some(s) && (s < 100 || s > 10000) {
        Some("Chunk size must be between 100 and 10000"@)
    } else if c.chunk_overlap matches Some(o) && (o < 0 || o > 1000) {
        Some("Chunk overlap must be between 0 and 1000"@)
    } else {
        None
    }
}

impl ResourceConfig {
    /// Checks the ranges of the settings that are present.
    pub fn validate(&self) -> (r: Result<(), ResourceError>)
        ensures
            match config_problem(*self) {
                None => r is Ok,
                Some(m) => r matches Err(ResourceError::Validation(t)) && t@ == m,
            },
    {
        if let Some(depth) = self.depth {
            if depth < 0 || depth > 10 {
                return Err(ResourceError::Validation("Depth must be between 0 and 10".to_owned()));
            }
        }
        if let Some(size) = self.chunk_size {
            if size < 100 || size > 10000 {
                return Err(ResourceError::Validation("Chunk size must be between 100 and 10000".to_owned()));
            }
        }
        if let Some(overlap) = self.chunk_overlap {
            if overlap < 0 || overlap > 1000 {
                return Err(ResourceError::Validation("Chunk overlap must be between 0 and 1000".to_owned()));
            }
        }
        Ok(())
    }
}

/// A request to ingest a resource.
#[derive(Clone, Debug)]
pub struct AddResourceRequest {
    /// One of url, text, markdown, pdf, html, code, file, in any case.
    pub resource_type: String,
    pub content: String,
    pub title: Option<String>,
    pub metadata: Option<HashMap<String, String>>,
    pub config: Option<ResourceConfig>,
}

/// Whether a lower-cased type name is one that can be ingested.
pub open spec fn supported_type(t: Seq<char>) -> bool {
    t == "url"@ || t == "text"@ || t == "markdown"@ || t == "pdf"@ || t == "html"@ || t == "code"@
        || t == "file"@
}

/// Why a URL is refused, if it is: it must start with `http://` or
/// `https://` and hold at least three bytes after that.
pub open spec fn url_problem(url: Seq<char>) -> Option<Seq<char>> {
    if !starts_with(url, "http://"@) && !starts_with(url, "https://"@) {
        Some("URL must start with http:// or https://"@)
    } else if starts_with(url, "https://"@) && byte_len(url) < 8 + 3 {
        Some("URL must have a valid domain"@)
    } else if !starts_with(url, "https://"@) && byte_len(url) < 7 + 3 {
        Some("URL must have a valid domain"@)
    } else {
        None
    }
}

/// `r` is the outcome of validating `req`, whose type name lower-cased is
/// `lowered`: the type, then the content, then a URL's form, then the title,
/// then the ingestion config are checked, and the first problem is reported.
pub open spec fn add_request_result(req: AddResourceRequest, lowered: Seq<char>, r: Result<(), ResourceError>) -> bool {
    if !supported_type(lowered) {
        r == Err::<(), ResourceError>(ResourceError::UnsupportedResourceType(req.resource_type))
    } else if req.content@.len() == 0 {
        r == Err::<(), ResourceError>(ResourceError::InvalidContent)
    } else if byte_len(req.content@) > MAX_CONTENT_SIZE {
        r == Err::<(), ResourceError>(ResourceError::ContentTooLarge)
    } else if lowered == "url"@ && url_problem(req.content@) is Some {
        r matches Err(ResourceError::InvalidUrl(m)) && Some(m@) == url_problem(req.content@)
    } else if req.title matches Some(t) && byte_len(t@) > MAX_TITLE_LENGTH {
        r matches Err(ResourceError::Validation(m)) && m@ == "Title must be less than 500 characters"@
    } else if req.config matches Some(c) && config_problem(c) is Some {
        r matches Err(ResourceError::Validation(m)) && Some(m@) == config_problem(req.config->0)
    } else {
        r is Ok
    }
}

/// Checks the form of a URL.
pub fn validate_url(url: &str) -> (r: Result<(), ResourceError>)
    ensures
        match url_problem(url@) {
            None => r is Ok,
            Some(m) => r matches Err(ResourceError::InvalidUrl(t)) && t@ == m,
        },
{
    let https = has_prefix(url, "https://");
    if !has_prefix(url, "http://") && !https {
        return Err(ResourceError::InvalidUrl("URL must start with http:// or https://".to_owned()));
    }
    let scheme_len: usize = if https { 8 } else { 7 };
    if url.len() < scheme_len + 3 {
        return Err(ResourceError::InvalidUrl("URL must have a valid domain".to_owned()));
    }
    Ok(())
}

fn is_supported_type(t: &str) -> (r: bool)
    ensures
        r == supported_type(t@),
{
    let owned = t.to_owned();
    owned == "url".to_owned() || owned == "text".to_owned() || owned == "markdown".to_owned()
        || owned == "pdf".to_owned() || owned == "html".to_owned() || owned == "code".to_owned()
        || owned == "file".to_owned()
}

impl AddResourceRequest {
    /// Validates the request given its type name lower-cased.
    pub fn validate_lowered(&self, lowered: &str) -> (r: Result<(), ResourceError>)
        ensures
            add_request_result(*self, lowered@, r),
    {
        if !is_supported_type(lowered) {
            return Err(ResourceError::UnsupportedResourceType(self.resource_type.clone()));
        }
        if self.content.as_str().is_empty() {
            return Err(ResourceError::InvalidContent);
        }
        if self.content.as_str().len() > MAX_CONTENT_SIZE {
            return Err(ResourceError::ContentTooLarge);
        }
        if lowered.to_owned() == "url".to_owned() {
            let checked = validate_url(self.content.as_str());
            if checked.is_err() {
                return checked;
            }
        }
        if let Some(title) = &self.title {
            if title.as_str().len() > MAX_TITLE_LENGTH {
                return Err(ResourceError::Validation("Title must be less than 500 characters".to_owned()));
            }
        }
        if let Some(config) = &self.config {
            let checked = config.validate();
            if checked.is_err() {
                return checked;
            }
        }
        Ok(())
    }

    /// Validates the request: a supported type in any case, non-empty
    /// content of at most 10 MiB, a well-formed URL for the url type, a title
    /// of at most 500 bytes, and an ingestion config in range.
    pub fn validate(&self) -> (r: Result<(), ResourceError>)
        ensures
            add_request_result(*self, lower_of(self.resource_type@), r),
    {
        let lowered = to_lowercase(self.resource_type.as_str());
        self.validate_lowered(lowered.as_str())
    }
}

/// Why a request body's content type is refused, if it is: it must start
/// with `application/json`.
pub open spec fn content_type_problem(content_type: Seq<char>) -> Option<Seq<char>> {
    if starts_with(content_type, "application/json"@) {
        None
    } else {
        Some("Expected 'application/json', got '"@ + content_type + "'"@)
    }
}

/// Checks that a request body is declared as JSON.
pub fn check_json_content_type(content_type: &str) -> (r: Result<(), ResourceError>)
    ensures
        match content_type_problem(content_type@) {
            None => r is Ok,
            Some(m) => r matches Err(ResourceError::InvalidContentType(t)) && t@ == m,
        },
{
    if has_prefix(content_type, "application/json") {
        return Ok(());
    }
    let mut m = "Expected 'application/json', got '".to_owned();
    m.append(content_type);
    m.append("'");
    Err(ResourceError::InvalidContentType(m))
}

/// Page size of a resource listing when the caller gives none.
pub const DEFAULT_PAGE_LIMIT: i32 = 20;
/// Largest page size of a resource listing.
pub const MAX_PAGE_LIMIT: i32 = 100;

/// The page size of a listing: the caller's, or 20; it must lie in 1 to 100.
pub fn page_limit(limit: Option<i32>) -> (r: Result<i32, ResourceError>)
    ensures
        ({
            let l = match limit {
                Some(l) => l,
                None => DEFAULT_PAGE_LIMIT,
            };
            if 1 <= l <= MAX_PAGE_LIMIT {
                r == Ok::<i32, ResourceError>(l)
            } else {
                r == Err::<i32, ResourceError>(ResourceError::InvalidFilters)
            }
        }),
{
    let l = match limit {
        Some(l) => l,
        None => DEFAULT_PAGE_LIMIT,
    };
    if l < 1 || l > MAX_PAGE_LIMIT {
        return Err(ResourceError::InvalidFilters);
    }
    Ok(l)
}

/// Ingestion settings as sent to the service, every one given.
#[derive(Clone, Copy, Debug, PartialEq, Eq, Structural)]
pub struct IngestionSettings {
    pub chunk_size: i32,
    pub chunk_overlap: i32,
    pub auto_clean: bool,
    pub generate_embeddings: bool,
    pub max_depth: i32,
    pub follow_links: bool,
}

/// The value of an optional setting, or its default.
pub open spec fn or_default<T>(o: Option<T>, d: T) -> T {
    match o {
        Some(v) => v,
        None => d,
    }
}

impl ResourceConfig {
    /// The settings with defaults filled in: chunks of 1000 with overlap 200,
    /// cleaning and embeddings on, depth 1, links not followed.
    pub fn with_defaults(&self) -> (r: IngestionSettings)
        ensures
            r == (IngestionSettings {
                chunk_size: or_default(self.chunk_size, 1000),
                chunk_overlap: or_default(self.chunk_overlap, 200),
                auto_clean: or_default(self.auto_clean, true),
                generate_embeddings: or_default(self.generate_embeddings, true),
                max_depth: or_default(self.depth, 1),
                follow_links: or_default(self.follow_links, false),
            }),
    {
        IngestionSettings {
            chunk_size: match self.chunk_size { Some(v) => v, None => 1000 },
            chunk_overlap: match self.chunk_overlap { Some(v) => v, None => 200 },
            auto_clean: match self.auto_clean { Some(v) => v, None => true },
            generate_embeddings: match self.generate_embeddings { Some(v) => v, None => true },
            max_depth: match self.depth { Some(v) => v, None => 1 },
            follow_links: match self.follow_links { Some(v) => v, None => false },
        }
    }
}

/// Number of characters of the content that make a title when none is given.
pub const GENERATED_TITLE_CHARS: usize = 50;

/// The title of a resource: the caller's, or the first 50 characters of its
/// content.
pub fn resource_title(title: &Option<String>, content: &str) -> (r: String)
    ensures
        r@ == match title {
            Some(t) => t@,
            None => if content@.len() <= GENERATED_TITLE_CHARS { content@ } else { content@.take(GENERATED_TITLE_CHARS as int) },
        },
{
    match title {
        Some(t) => t.clone(),
        None => {
            let chars = chars_of(content);
            let n = if chars.len() <= GENERATED_TITLE_CHARS { chars.len() } else { GENERATED_TITLE_CHARS };
            let mut head: Vec<char> = Vec::new();
            head.extend_from_slice(&chars.as_slice()[0..n]);
            proof {
                assert(head@ =~= content@.take(n as int));
                if content@.len() <= GENERATED_TITLE_CHARS {
                    assert(content@.take(n as int) =~= content@);
                }
            }
            string_from_chars(head)
        },
    }
}

/// Kinds of resource that the ingestion service knows.
#[derive(Clone, Copy, Debug, PartialEq, Eq, Structural)]
pub enum IngestKind {
    Unspecified,
    Text,
    Markdown,
    Pdf,
    Html,
    Website,
    Code,
}

/// The kind under which a resource of a lower-cased type name is ingested.
pub open spec fn ingest_kind_of(t: Seq<char>) -> IngestKind {
    if t == "url"@ {
        IngestKind::Website
    } else if t == "text"@ {
        IngestKind::Text
    } else if t == "markdown"@ {
        IngestKind::Markdown
    } else if t == "pdf"@ {
        IngestKind::Pdf
    } else if t == "html"@ {
        IngestKind::Html
    } else if t == "code"@ || t == "file"@ {
        IngestKind::Code
    } else {
        IngestKind::Unspecified
    }
}

/// The kind under which a resource of a lower-cased type name is ingested.
pub fn ingest_kind(t: &str) -> (r: IngestKind)
    ensures
        r == ingest_kind_of(t@),
{
    let o = t.to_owned();
    if o == "url".to_owned() {
        IngestKind::Website
    } else if o == "text".to_owned() {
        IngestKind::Text
    } else if o == "markdown".to_owned() {
        IngestKind::Markdown
    } else if o == "pdf".to_owned() {
        IngestKind::Pdf
    } else if o == "html".to_owned() {
        IngestKind::Html
    } else if o == "code".to_owned() || o == "file".to_owned() {
        IngestKind::Code
    } else {
        IngestKind::Unspecified
    }
}

/// The kind that a lower-cased listing filter selects.
pub open spec fn kind_filter_of(t: Seq<char>) -> IngestKind {
    if t == "text"@ {
        IngestKind::Text
    } else if t == "markdown"@ {
        IngestKind::Markdown
    } else if t == "pdf"@ {
        IngestKind::Pdf
    } else if t == "html"@ {
        IngestKind::Html
    } else if t == "website"@ {
        IngestKind::Website
    } else if t == "code"@ {
        IngestKind::Code
    } else {
        IngestKind::Unspecified
    }
}

/// The kind that a listing filter selects, in any case.
pub fn kind_filter(t: &str) -> (r: IngestKind)
    ensures
        r == kind_filter_of(lower_of(t@)),
{
    let lowered = to_lowercase(t);
    let o = lowered;
    if o == "text".to_owned() {
        IngestKind::Text
    } else if o == "markdown".to_owned() {
        IngestKind::Markdown
    } else if o == "pdf".to_owned() {
        IngestKind::Pdf
    } else if o == "html".to_owned() {
        IngestKind::Html
    } else if o == "website".to_owned() {
        IngestKind::Website
    } else if o == "code".to_owned() {
        IngestKind::Code
    } else {
        IngestKind::Unspecified
    }
}

impl IngestKind {
    /// The name of the kind in listings.
    pub fn name(&self) -> (r: &'static str)
        ensures
            r@ == match *self {
                IngestKind::Unspecified => "unspecified"@,
                IngestKind::Text => "text"@,
                IngestKind::Markdown => "markdown"@,
                IngestKind::Pdf => "pdf"@,
                IngestKind::Html => "html"@,
                IngestKind::Website => "website"@,
                IngestKind::Code => "code"@,
            },
    {
        match self {
            IngestKind::Unspecified => "unspecified",
            IngestKind::Text => "text",
            IngestKind::Markdown => "markdown",
            IngestKind::Pdf => "pdf",
            IngestKind::Html => "html",
            IngestKind::Website => "website",
            IngestKind::Code => "code",
        }
    }
}

/// What an add request hands to the service as content.
#[derive(Clone, Debug, PartialEq, Eq)]
pub enum IngestContent {
    /// A page to crawl.
    Url(String),
    /// Text to ingest as it stands.
    Text(String),
    /// The bytes of a file.
    FileContent(Vec<u8>),
}

/// `r` is the content that a resource of the lower-cased type name `t` and
/// content `content` hands over: a URL, text, or the bytes of a file; none
/// for types that cannot be sent this way.
pub open spec fn ingest_content_spec(t: Seq<char>, content: &str, r: Option<IngestContent>) -> bool {
    if t == "url"@ {
        r matches Some(IngestContent::Url(c)) && c@ == content@
    } else if t == "text"@ || t == "markdown"@ || t == "html"@ || t == "code"@ {
        r matches Some(IngestContent::Text(c)) && c@ == content@
    } else if t == "file"@ {
        r matches Some(IngestContent::FileContent(b)) && b@ == content.spec_bytes()
    } else {
        r is None
    }
}

/// The content that a resource of a lower-cased type name hands over.
pub fn ingest_content(t: &str, content: &str) -> (r: Option<IngestContent>)
    ensures
        ingest_content_spec(t@, content, r),
{
    let o = t.to_owned();
    if o == "url".to_owned() {
        Some(IngestContent::Url(content.to_owned()))
    } else if o == "text".to_owned() || o == "markdown".to_owned() || o == "html".to_owned() || o == "code".to_owned() {
        Some(IngestContent::Text(content.to_owned()))
    } else if o == "file".to_owned() {
        let mut bytes: Vec<u8> = Vec::new();
        bytes.extend_from_slice(content.as_bytes());
        proof {
            assert(bytes@ =~= content.spec_bytes());
        }
        Some(IngestContent::FileContent(bytes))
    } else {
        None
    }
}

/// Answer to a successful add request.
#[derive(Clone, Debug)]
pub struct AddResourceResponse {
    pub resource_id: String,
    pub job_id: String,
    pub status: String,
    pub created_at: i64,
}

/// Query of the resource listing.
#[derive(Clone, Debug)]
pub struct ListResourcesQuery {
    pub limit: Option<i32>,
    pub cursor: Option<String>,
    pub resource_type: Option<String>,
    pub status: Option<String>,
}

/// Query of an ingestion job's status.
#[derive(Clone, Debug)]
pub struct GetResourceStatusQuery {
    pub job_id: Option<String>,
    pub user_id: Option<String>,
}

/// Counts of what an ingestion produced.
#[derive(Clone, Copy, Debug, PartialEq, Eq, Structural)]
pub struct ResourceStats {
    pub documents: i32,
    pub chunks: i32,
}

/// One resource in a listing.
#[derive(Clone, Debug)]
pub struct ResourceItem {
    pub id: String,
    pub resource_type: String,
    pub content: String,
    pub status: String,
    pub stats: Option<ResourceStats>,
    pub created_at: i64,
}

/// One resource in a listing, with its ingestion counts and metadata.
#[derive(Clone, Debug)]
pub struct ResourceItemResponse {
    pub id: String,
    pub resource_type: String,
    pub content: String,
    pub status: String,
    pub chunks_created: i32,
    pub documents: i32,
    pub metadata: HashMap<String, String>,
    pub created_at: i64,
}

/// A page of the resource listing.
#[derive(Clone, Debug)]
pub struct ListResourcesResponse {
    pub items: Vec<ResourceItemResponse>,
    pub next_cursor: Option<String>,
    pub total: i32,
}

/// Progress of an ingestion job: its stage and percentage.
#[derive(Clone, Debug)]
pub struct ResourceProgress {
    pub stage: String,
    pub percent: i32,
}

} // verus!
