//! Client mediation layer between an HTTP gateway and a remote inference and
//! ingestion service: per-class deadlines, retry decisions, correlation tags,
//! chunked upload framing and stream-to-event translation, together with the
//! request validation rules of the gateway.

pub mod timeouts;
pub mod operations;
pub mod retry;
pub mod ids;
pub mod chunking;
pub mod stream;
pub mod calls;
pub mod errors;
pub mod text;
pub mod validation;
pub mod auth;
pub mod resources;
pub mod chat;
pub mod config;
pub mod accounts;
pub mod tokens;
