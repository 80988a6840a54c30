//! DNS resolution policy: which resolution failures are worth retrying,
//! and the backoff settings the resolver runs under.
//!
//! The resolution itself is network work done by the caller; this module
//! owns the classification of its failures and the retry configuration,
//! so the retry behaviour around every lookup is verified.

use vstd::prelude::*;

use crate::retry::RetryConfig;

verus! {

/// The failure classes a DNS lookup can report. `Unknown` stands for a
/// failure that is not a resolution error at all (a task fault, a wrapper
/// error around the lookup).
#[derive(Clone, Copy, Debug, PartialEq, Eq, Structural)]
pub enum DnsErrorKind {
    /// The lookup timed out.
    Timeout,
    /// The name exists but returned no records of the asked type.
    NoRecordsFound,
    /// A protocol-level fault in the exchange.
    Proto,
    /// An I/O fault below the protocol.
    Io,
    /// Any other resolution error: a permanent failure.
    OtherResolve,
    /// Not a resolution error.
    Unknown,
}

/// Which failures are retried: the transient four, and unknown failures
/// by default; every other resolution error is permanent.
pub open spec fn spec_dns_retriable(kind: DnsErrorKind) -> bool {
    !(kind is OtherResolve)
}

/// Classifies a DNS failure for the retry loop: timeouts, missing
/// records, protocol and I/O faults are transient, unknown failures are
/// retried by default, and every other resolution error stops the
/// retries.
pub fn is_retriable_dns_error(kind: DnsErrorKind) -> (r: bool)
    ensures
        r == spec_dns_retriable(kind),
{
    match kind {
        DnsErrorKind::Timeout => true,
        DnsErrorKind::NoRecordsFound => true,
        DnsErrorKind::Proto => true,
        DnsErrorKind::Io => true,
        DnsErrorKind::OtherResolve => false,
        DnsErrorKind::Unknown => true,
    }
}

/// Judges a completed lookup by how many addresses it returned: an
/// answer with at least one address passes, an empty one is the
/// no-addresses failure for that domain, with its exact message.
pub fn lookup_outcome(domain: &str, address_count: usize) -> (r: Result<(), String>)
    ensures
        (match r {
            Ok(()) => address_count > 0,
            Err(message) => address_count == 0 && message@
                == "No IP addresses found for domain: "@ + domain@,
        }),
{
    if address_count > 0 {
        Ok(())
    } else {
        let mut message = String::new();
        message.append("No IP addresses found for domain: ");
        message.append(domain);
        Err(message)
    }
}

/// The backoff settings every DNS lookup retries under: three attempts,
/// 100 ms initial delay, doubling, a 2 s ceiling, jitter on.
pub fn dns_retry_config() -> (c: RetryConfig)
    ensures
        c.max_retries == 3,
        c.initial_backoff_ms == 100,
        c.backoff_factor_percent == 200,
        c.max_backoff_ms == 2000,
        c.add_jitter,
{
    RetryConfig {
        max_retries: 3,
        initial_backoff_ms: 100,
        backoff_factor_percent: 200,
        max_backoff_ms: 2000,
        add_jitter: true,
    }
}

} // verus!
