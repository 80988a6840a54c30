//! Discovery of Microsoft identity federation and MDI sensor endpoints for
//! internet domains, built around a verified core: domain validation, a token
//! bucket rate limiter with a concurrency cap, exponential backoff with
//! bounded jitter, a result cache, tenant extraction, federation response
//! parsing, and the batch chunking pipeline.

pub mod batch;
pub mod cli;
pub mod dns;
pub mod engine;
pub mod http;
pub mod rate_limit;
pub mod retry;
pub mod sanitize;
pub mod text;
pub mod validation;
pub mod xml;
