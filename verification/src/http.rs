//! HTTP client policy: the builder configuration a client is made from,
//! the endpoint it talks to, and which response statuses are retried.
//!
//! The connection handling itself is network work done by the caller;
//! this module owns every decision around it: the configuration values,
//! their defaults, and the status classification that drives the backoff
//! loop.

use vstd::prelude::*;

verus! {

/// The lowest TLS protocol version a client accepts.
#[derive(Clone, Copy, Debug, PartialEq, Eq, Structural)]
pub enum TlsVersion {
    Tls12,
    Tls13,
}

/// The autodiscover endpoint every federation request goes to.
pub fn autodiscover_url() -> (r: &'static str)
    ensures
        r@ == "https://autodiscover-s.outlook.com/autodiscover/autodiscover.svc"@,
{
    "https://autodiscover-s.outlook.com/autodiscover/autodiscover.svc"
}

/// A successful response status: the 2xx range.
pub open spec fn spec_success_status(status: u16) -> bool {
    200 <= status && status <= 299
}

/// Decides whether a response succeeded: exactly the 2xx statuses pass;
/// everything else is handed to the retry classification below.
pub fn is_success_status(status: u16) -> (r: bool)
    ensures
        r == spec_success_status(status),
{
    200 <= status && status <= 299
}

/// A response status worth retrying: too many requests, or any server
/// error.
pub open spec fn spec_retriable_status(status: u16) -> bool {
    status == 429 || (500 <= status && status <= 599)
}

/// Classifies a response status for the retry loop: 429 and the server
/// errors are transient, everything else is permanent.
pub fn is_retriable_status(status: u16) -> (r: bool)
    ensures
        r == spec_retriable_status(status),
{
    status == 429 || (500 <= status && status <= 599)
}

/// Configuration an HTTP client is built from. All durations are in
/// milliseconds.
pub struct HttpClientBuilder {
    /// Deadline of one whole request.
    pub timeout_ms: u64,
    /// Most redirects followed; zero disables redirects.
    pub max_redirects: u32,
    /// Whether TLS certificates are checked against trusted roots.
    pub verify_certificates: bool,
    /// The lowest TLS version accepted, when one is pinned.
    pub min_tls_version: Option<TlsVersion>,
    /// The user agent sent with every request.
    pub user_agent: String,
    /// How long an idle pooled connection is kept, when bounded.
    pub idle_timeout_ms: Option<u64>,
    /// Most idle connections kept per host.
    pub pool_max_idle_per_host: usize,
    /// How long the pool keeps an idle connection.
    pub pool_idle_timeout_ms: u64,
    /// TCP keepalive interval.
    pub tcp_keepalive_ms: u64,
}

impl Default for HttpClientBuilder {
    /// The safe defaults: a 30 s timeout, at most 5 redirects,
    /// certificate checking on, TLS 1.2 or newer, a 90 s idle timeout,
    /// and the standard pool sizing.
    fn default() -> (b: HttpClientBuilder)
        ensures
            b.timeout_ms == 30000,
            b.max_redirects == 5,
            b.verify_certificates,
            b.min_tls_version == Some(TlsVersion::Tls12),
            b.user_agent@ == "sentri-mdi-scanner/0.1.0"@,
            b.idle_timeout_ms == Some(90000u64),
            b.pool_max_idle_per_host == 50,
            b.pool_idle_timeout_ms == 30000,
            b.tcp_keepalive_ms == 60000,
    {
        HttpClientBuilder {
            timeout_ms: 30000,
            max_redirects: 5,
            verify_certificates: true,
            min_tls_version: Some(TlsVersion::Tls12),
            user_agent: String::from_str("sentri-mdi-scanner/0.1.0"),
            idle_timeout_ms: Some(90000),
            pool_max_idle_per_host: 50,
            pool_idle_timeout_ms: 30000,
            tcp_keepalive_ms: 60000,
        }
    }
}

impl HttpClientBuilder {
    /// Sets the request deadline.
    pub fn timeout(self, timeout_ms: u64) -> (b: HttpClientBuilder)
        ensures
            b == (HttpClientBuilder { timeout_ms, ..self }),
    {
        HttpClientBuilder { timeout_ms, ..self }
    }

    /// Sets the redirect ceiling; zero disables redirects.
    pub fn max_redirects(self, max_redirects: u32) -> (b: HttpClientBuilder)
        ensures
            b == (HttpClientBuilder { max_redirects, ..self }),
    {
        HttpClientBuilder { max_redirects, ..self }
    }

    /// Turns certificate checking on or off. Leave it on outside tests.
    pub fn verify_certificates(self, verify: bool) -> (b: HttpClientBuilder)
        ensures
            b == (HttpClientBuilder { verify_certificates: verify, ..self }),
    {
        HttpClientBuilder { verify_certificates: verify, ..self }
    }

    /// Pins the lowest accepted TLS version.
    pub fn min_tls_version(self, version: TlsVersion) -> (b: HttpClientBuilder)
        ensures
            b == (HttpClientBuilder { min_tls_version: Some(version), ..self }),
    {
        HttpClientBuilder { min_tls_version: Some(version), ..self }
    }

    /// Sets the user agent.
    pub fn user_agent(self, user_agent: String) -> (b: HttpClientBuilder)
        ensures
            b.user_agent == user_agent,
            b.timeout_ms == self.timeout_ms,
            b.max_redirects == self.max_redirects,
            b.verify_certificates == self.verify_certificates,
            b.min_tls_version == self.min_tls_version,
            b.idle_timeout_ms == self.idle_timeout_ms,
            b.pool_max_idle_per_host == self.pool_max_idle_per_host,
            b.pool_idle_timeout_ms == self.pool_idle_timeout_ms,
            b.tcp_keepalive_ms == self.tcp_keepalive_ms,
    {
        HttpClientBuilder { user_agent, ..self }
    }

    /// Bounds how long an idle pooled connection is kept.
    pub fn idle_timeout(self, timeout_ms: u64) -> (b: HttpClientBuilder)
        ensures
            b == (HttpClientBuilder { idle_timeout_ms: Some(timeout_ms), ..self }),
    {
        HttpClientBuilder { idle_timeout_ms: Some(timeout_ms), ..self }
    }

    /// Keeps idle pooled connections without a bound.
    pub fn disable_idle_timeout(self) -> (b: HttpClientBuilder)
        ensures
            b == (HttpClientBuilder { idle_timeout_ms: None, ..self }),
    {
        HttpClientBuilder { idle_timeout_ms: None, ..self }
    }
}

} // verus!
