//! The single-domain scan engine: its result type, the shared result
//! cache, and the decision steps of one domain's check.
//!
//! A scan runs validate → federation query → tenant extraction → MDI
//! probe → cache write. The network calls themselves are driven outside;
//! each decision between them is a verified function here, so the order of
//! steps, the shape of every produced result, and the cache behaviour are
//! all pinned down by contracts.

use vstd::prelude::*;

use crate::text::{chars_of, string_of_chars};
use crate::validation::{
    spec_suspicious, spec_valid_domain_format, spec_validation_error, validate_domain,
};

verus! {

/// Everything learned about one domain: the tenant behind it, the domains
/// federated with it, the MDI sensor host if one resolved, how long the
/// scan took, and the error when it failed. Exactly one of the two holds:
/// the optional fields are populated, or `error` is set and they are empty.
#[derive(Debug, Clone)]
pub struct DomainResult {
    /// The domain that was scanned.
    pub domain: String,
    /// The Microsoft tenant identifier, when one was found.
    pub tenant: Option<String>,
    /// All domains found federated with the scanned domain.
    pub federated_domains: Vec<String>,
    /// Host name of the MDI sensor endpoint, when it resolved.
    pub mdi_instance: Option<String>,
    /// Time the scan took, in milliseconds.
    pub processing_time_ms: u64,
    /// The failure, when the scan produced no answer.
    pub error: Option<String>,
}

/// The mathematical image of a `DomainResult`: every text field as its
/// character sequence.
#[verifier::ext_equal]
pub struct DomainResultView {
    pub domain: Seq<char>,
    pub tenant: Option<Seq<char>>,
    pub federated_domains: Seq<Seq<char>>,
    pub mdi_instance: Option<Seq<char>>,
    pub processing_time_ms: u64,
    pub error: Option<Seq<char>>,
}

impl View for DomainResult {
    type V = DomainResultView;

    open spec fn view(&self) -> DomainResultView {
        DomainResultView {
            domain: self.domain@,
            tenant: self.tenant.deep_view(),
            federated_domains: self.federated_domains.deep_view(),
            mdi_instance: self.mdi_instance.deep_view(),
            processing_time_ms: self.processing_time_ms,
            error: self.error.deep_view(),
        }
    }
}

/// The domains a federation answer names.
#[derive(Debug)]
pub struct FederationInfo {
    /// All federated domains, in the order the answer listed them.
    pub domains: Vec<String>,
}

#[verifier::external_type_specification]
#[verifier::external_body]
#[verifier::reject_recursive_types(K)]
#[verifier::reject_recursive_types(V)]
#[verifier::reject_recursive_types(S)]
pub struct ExDashMap<K, V, S>(dashmap::DashMap<K, V, S>);

/// What the cache holds: completed results, keyed by the domain string
/// the caller asked about.
pub uninterp spec fn cache_view(
    m: dashmap::DashMap<String, DomainResult>,
) -> Map<Seq<char>, DomainResultView>;

/// Relies on `dashmap::DashMap::new`: a freshly created map is empty.
#[verifier::external_body]
fn cache_new() -> (r: dashmap::DashMap<String, DomainResult>)
    ensures
        cache_view(r) =~= Map::empty(),
{
    dashmap::DashMap::new()
}

/// Relies on `dashmap::DashMap::get`: returns the entry stored under
/// exactly this key, or nothing when the key is absent.
#[verifier::external_body]
fn cache_get(m: &dashmap::DashMap<String, DomainResult>, key: &str) -> (r: Option<DomainResult>)
    ensures
        (match r {
            Some(v) => cache_view(*m).contains_key(key@) && v@ == cache_view(*m)[key@],
            None => !cache_view(*m).contains_key(key@),
        }),
{
    m.get(key).map(|entry| entry.value().clone())
}

/// Relies on `dashmap::DashMap::insert`: stores the value under the key,
/// replacing any earlier entry for it and touching no other key.
#[verifier::external_body]
fn cache_insert(m: &mut dashmap::DashMap<String, DomainResult>, key: &str, value: &DomainResult)
    ensures
        cache_view(*final(m)) == cache_view(*old(m)).insert(key@, value@),
{
    m.insert(key.to_string(), value.clone());
}

/// The suffix that marks a federated domain as naming the tenant.
pub open spec fn spec_tenant_suffix() -> Seq<char> {
    ".onmicrosoft.com"@
}

/// Whether this federated domain names the tenant.
pub open spec fn spec_is_tenant_source(s: Seq<char>) -> bool {
    s.len() >= spec_tenant_suffix().len() && s.skip(s.len() - spec_tenant_suffix().len())
        == spec_tenant_suffix()
}

/// `k` is the length of the dot-free prefix of `s`: everything before the
/// first dot, or all of `s` when it has none.
pub open spec fn spec_dot_free_prefix(s: Seq<char>, k: int) -> bool {
    &&& 0 <= k <= s.len()
    &&& (k == s.len() || s[k] == '.')
    &&& forall|j: int| 0 <= j < k ==> s[j] != '.'
}

/// The tenant-extraction relation: `t` is `None` exactly when no listed
/// domain carries the tenant suffix; otherwise `t` is the part before the
/// first dot of the first domain that does.
pub open spec fn spec_tenant_of(ds: Seq<Seq<char>>, t: Option<Seq<char>>) -> bool {
    match t {
        None => forall|i: int| 0 <= i < ds.len() ==> !spec_is_tenant_source(#[trigger] ds[i]),
        Some(tv) => exists|i: int|
            {
                &&& 0 <= i < ds.len()
                &&& #[trigger] spec_is_tenant_source(ds[i])
                &&& (forall|j: int| 0 <= j < i ==> !spec_is_tenant_source(#[trigger] ds[j]))
                &&& exists|k: int| #[trigger] spec_dot_free_prefix(ds[i], k) && tv == ds[i].take(k)
            },
    }
}

/// The result a failed scan carries: all optional fields empty, the error
/// text set.
pub open spec fn spec_error_result(
    domain: Seq<char>,
    message: Seq<char>,
    elapsed_ms: u64,
) -> DomainResultView {
    DomainResultView {
        domain: domain,
        tenant: None,
        federated_domains: Seq::empty(),
        mdi_instance: None,
        processing_time_ms: elapsed_ms,
        error: Some(message),
    }
}

/// How recording a completed result changes the cache: only error-free
/// results are stored, keyed by the scanned domain.
pub open spec fn spec_record(
    m: Map<Seq<char>, DomainResultView>,
    domain: Seq<char>,
    r: DomainResultView,
) -> Map<Seq<char>, DomainResultView> {
    if r.error is None {
        m.insert(domain, r)
    } else {
        m
    }
}

/// What follows a federation answer: the scan is finished, or the MDI
/// probe for the extracted tenant is still owed.
pub enum ScanStep {
    Done(DomainResult),
    ProbeMdi { federated: Vec<String>, tenant: String, hostname: String },
}

/// Cache idempotence: once an error-free result is recorded for a domain,
/// a lookup of that domain is answered from the cache with exactly that
/// result, so the scan steps are never requested a second time.
pub proof fn lemma_cache_idempotent(
    m: Map<Seq<char>, DomainResultView>,
    domain: Seq<char>,
    r: DomainResultView,
)
    requires
        r.error is None,
    ensures
        spec_record(m, domain, r).contains_key(domain),
        spec_record(m, domain, r)[domain] == r,
{
}

/// Builds the MDI sensor host name probed for a tenant.
pub fn mdi_hostname(tenant: &str) -> (r: String)
    ensures
        r@ == tenant@ + "sensorapi.atp.azure.com"@,
{
    let mut s = String::new();
    s.append(tenant);
    s.append("sensorapi.atp.azure.com");
    s
}

/// The scan engine: the configuration of one checker and its result
/// cache, shared by every domain it scans.
pub struct MdiChecker {
    /// Most domain checks allowed to run at once.
    pub concurrent_limit: usize,
    /// Deadline handed to each network call, in milliseconds.
    pub timeout_ms: u64,
    /// Completed error-free results, keyed by the domain as it was asked.
    cache: dashmap::DashMap<String, DomainResult>,
}

impl MdiChecker {
    /// The cache's current contents.
    pub closed spec fn cache_contents(self) -> Map<Seq<char>, DomainResultView> {
        cache_view(self.cache)
    }

    /// The concurrency ceiling this checker was created with.
    pub closed spec fn spec_concurrent_limit(self) -> usize {
        self.concurrent_limit
    }

    /// The network timeout this checker was created with.
    pub closed spec fn spec_timeout_ms(self) -> u64 {
        self.timeout_ms
    }

    /// Creates a checker with the given concurrency ceiling and network
    /// timeout, and an empty cache.
    pub fn new(concurrent_requests: usize, timeout_ms: u64) -> (r: MdiChecker)
        ensures
            r.spec_concurrent_limit() == concurrent_requests,
            r.spec_timeout_ms() == timeout_ms,
            r.cache_contents() == Map::<Seq<char>, DomainResultView>::empty(),
    {
        MdiChecker {
            concurrent_limit: concurrent_requests,
            timeout_ms: timeout_ms,
            cache: cache_new(),
        }
    }

    /// Answers a domain from the cache when it has a completed result.
    pub fn cached_result(&self, domain: &str) -> (r: Option<DomainResult>)
        ensures
            (match r {
                Some(v) => self.cache_contents().contains_key(domain@) && v@
                    == self.cache_contents()[domain@],
                None => !self.cache_contents().contains_key(domain@),
            }),
    {
        cache_get(&self.cache, domain)
    }

    /// Records a completed scan: an error-free result is stored under the
    /// scanned domain, a failed one leaves the cache untouched.
    pub fn record_result(&mut self, domain: &str, result: &DomainResult)
        ensures
            final(self).cache_contents() == spec_record(
                old(self).cache_contents(),
                domain@,
                result@,
            ),
            final(self).spec_concurrent_limit() == old(self).spec_concurrent_limit(),
            final(self).spec_timeout_ms() == old(self).spec_timeout_ms(),
    {
        if result.error.is_none() {
            cache_insert(&mut self.cache, domain, result);
        }
    }

    /// The validation step that opens every scan: an invalid or suspicious
    /// domain is answered immediately with an error result — nothing else
    /// of the scan runs for it — and a sound domain passes with nothing.
    pub fn validation_failure(&self, domain: &str, elapsed_ms: u64) -> (r: Option<DomainResult>)
        ensures
            (match r {
                None => spec_valid_domain_format(domain@) && !spec_suspicious(domain@),
                Some(res) => {
                    &&& !(spec_valid_domain_format(domain@) && !spec_suspicious(domain@))
                    &&& res@ == spec_error_result(
                        domain@,
                        spec_validation_error(domain@),
                        elapsed_ms,
                    )
                },
            }),
    {
        match validate_domain(domain) {
            Ok(()) => None,
            Err(message) => {
                let res = DomainResult {
                    domain: domain.to_owned(),
                    tenant: None,
                    federated_domains: Vec::new(),
                    mdi_instance: None,
                    processing_time_ms: elapsed_ms,
                    error: Some(message),
                };
                proof {
                    assert(res@ =~~= spec_error_result(
                        domain@,
                        spec_validation_error(domain@),
                        elapsed_ms,
                    ));
                }
                Some(res)
            },
        }
    }

    /// Finds the tenant in a federated-domain list: the part before the
    /// first dot of the first entry ending in `.onmicrosoft.com`.
    pub fn extract_tenant(&self, domains: &Vec<String>) -> (r: Option<String>)
        ensures
            spec_tenant_of(domains.deep_view(), r.deep_view()),
    {
        let suffix = chars_of(".onmicrosoft.com");
        let mut i: usize = 0;
        while i < domains.len()
            invariant
                i <= domains@.len(),
                suffix@ == spec_tenant_suffix(),
                forall|j: int|
                    0 <= j < i ==> !spec_is_tenant_source(#[trigger] domains.deep_view()[j]),
            decreases domains@.len() - i,
        {
            let cs = chars_of(domains[i].as_str());
            proof {
                assert(domains.deep_view()[i as int] == domains@[i as int]@);
            }
            if crate::text::seq_ends_with(&cs, &suffix) {
                let mut k: usize = 0;
                while k < cs.len() && cs[k] != '.'
                    invariant
                        k <= cs@.len(),
                        forall|j: int| 0 <= j < k ==> cs@[j] != '.',
                    decreases cs@.len() - k,
                {
                    k = k + 1;
                }
                let mut prefix: Vec<char> = Vec::new();
                let mut j: usize = 0;
                while j < k
                    invariant
                        j <= k <= cs@.len(),
                        prefix@ == cs@.take(j as int),
                    decreases k - j,
                {
                    prefix.push(cs[j]);
                    j = j + 1;
                    proof {
                        assert(prefix@ =~= cs@.take(j as int));
                    }
                }
                let tenant = string_of_chars(&prefix);
                proof {
                    let dsv = domains.deep_view();
                    assert(spec_dot_free_prefix(dsv[i as int], k as int));
                    assert(tenant@ == dsv[i as int].take(k as int));
                    assert(spec_is_tenant_source(dsv[i as int]));
                }
                return Some(tenant);
            }
            i = i + 1;
        }
        None
    }

    /// The step after the federation query: a failure becomes an error
    /// result; an answer without a tenant-naming domain completes the scan
    /// with no MDI probe; otherwise the probe of the tenant's sensor host
    /// is requested.
    pub fn scan_after_federation(
        &self,
        domain: &str,
        outcome: Result<Vec<String>, String>,
        elapsed_ms: u64,
    ) -> (r: ScanStep)
        ensures
            (match outcome {
                Err(message) => r matches ScanStep::Done(res) && res@ == spec_error_result(
                    domain@,
                    message@,
                    elapsed_ms,
                ),
                Ok(federated) => (match r {
                    ScanStep::Done(res) => {
                        &&& spec_tenant_of(federated.deep_view(), None)
                        &&& res@ == (DomainResultView {
                            domain: domain@,
                            tenant: None,
                            federated_domains: federated.deep_view(),
                            mdi_instance: None,
                            processing_time_ms: elapsed_ms,
                            error: None,
                        })
                    },
                    ScanStep::ProbeMdi { federated: fd, tenant, hostname } => {
                        &&& fd == federated
                        &&& spec_tenant_of(federated.deep_view(), Some(tenant@))
                        &&& hostname@ == tenant@ + "sensorapi.atp.azure.com"@
                    },
                }),
            }),
    {
        match outcome {
            Err(message) => {
                let res = DomainResult {
                    domain: domain.to_owned(),
                    tenant: None,
                    federated_domains: Vec::new(),
                    mdi_instance: None,
                    processing_time_ms: elapsed_ms,
                    error: Some(message.clone()),
                };
                proof {
                    assert(res@ =~~= spec_error_result(domain@, message@, elapsed_ms));
                }
                ScanStep::Done(res)
            },
            Ok(federated) => match self.extract_tenant(&federated) {
                None => {
                    let ghost fdv = federated.deep_view();
                    let res = DomainResult {
                        domain: domain.to_owned(),
                        tenant: None,
                        federated_domains: federated,
                        mdi_instance: None,
                        processing_time_ms: elapsed_ms,
                        error: None,
                    };
                    proof {
                        assert(res@ =~~= (DomainResultView {
                            domain: domain@,
                            tenant: None,
                            federated_domains: fdv,
                            mdi_instance: None,
                            processing_time_ms: elapsed_ms,
                            error: None,
                        }));
                    }
                    ScanStep::Done(res)
                },
                Some(tenant) => {
                    let hostname = mdi_hostname(tenant.as_str());
                    ScanStep::ProbeMdi { federated, tenant, hostname }
                },
            },
        }
    }

    /// The final step of a scan whose tenant was found: a resolved probe
    /// records the sensor host name, an unresolved one records none — an
    /// absent sensor is an ordinary answer, not an error.
    pub fn scan_after_probe(
        &self,
        domain: &str,
        federated: Vec<String>,
        tenant: String,
        resolved: bool,
        elapsed_ms: u64,
    ) -> (r: DomainResult)
        ensures
            r@ == (DomainResultView {
                domain: domain@,
                tenant: Some(tenant@),
                federated_domains: federated.deep_view(),
                mdi_instance: if resolved {
                    Some(tenant@ + "sensorapi.atp.azure.com"@)
                } else {
                    None
                },
                processing_time_ms: elapsed_ms,
                error: None,
            }),
    {
        let mdi_instance = if resolved {
            Some(mdi_hostname(tenant.as_str()))
        } else {
            None
        };
        let ghost fdv = federated.deep_view();
        let ghost tv = tenant@;
        let res = DomainResult {
            domain: domain.to_owned(),
            tenant: Some(tenant),
            federated_domains: federated,
            mdi_instance,
            processing_time_ms: elapsed_ms,
            error: None,
        };
        proof {
            assert(res@ =~~= (DomainResultView {
                domain: domain@,
                tenant: Some(tv),
                federated_domains: fdv,
                mdi_instance: if resolved {
                    Some(tv + "sensorapi.atp.azure.com"@)
                } else {
                    None
                },
                processing_time_ms: elapsed_ms,
                error: None,
            }));
        }
        res
    }

    /// The result recorded for a domain whose scan failed outside the
    /// normal error paths: an error result carrying the failure text.
    pub fn scan_failure_result(&self, domain: &str, message: &str) -> (r: DomainResult)
        ensures
            r@ == spec_error_result(domain@, message@, 0),
    {
        let res = DomainResult {
            domain: domain.to_owned(),
            tenant: None,
            federated_domains: Vec::new(),
            mdi_instance: None,
            processing_time_ms: 0,
            error: Some(String::from_str(message)),
        };
        proof {
            assert(res@ =~~= spec_error_result(domain@, message@, 0));
        }
        res
    }

    /// The result recorded for a domain whose rate limiter acquisition
    /// failed fatally: an error result that leaves its siblings untouched.
    pub fn rate_limit_failure_result(&self, domain: &str, message: &str) -> (r: DomainResult)
        ensures
            r@ == spec_error_result(domain@, "Rate limiting error: "@ + message@, 0),
    {
        let mut text = String::new();
        text.append("Rate limiting error: ");
        text.append(message);
        let res = DomainResult {
            domain: domain.to_owned(),
            tenant: None,
            federated_domains: Vec::new(),
            mdi_instance: None,
            processing_time_ms: 0,
            error: Some(text),
        };
        proof {
            assert(res@ =~~= spec_error_result(domain@, "Rate limiting error: "@ + message@, 0));
        }
        res
    }
}

} // verus!
