use sentri::dns::{is_retriable_dns_error, DnsErrorKind};
use sentri::engine::{mdi_hostname, DomainResult, MdiChecker, ScanStep};
use sentri::http::{is_retriable_status, is_success_status};

#[test]
fn validation_first_short_circuit() {
    let checker = MdiChecker::new(1, 1000);
    let step = checker.validation_failure("invalid..domain", 5);
    let result = step.expect("an invalid domain is answered at once");
    assert_eq!(result.domain, "invalid..domain");
    assert!(result.error.clone().unwrap().contains("Invalid domain format"));
    assert!(result.federated_domains.is_empty());
    assert!(result.mdi_instance.is_none());
    assert!(result.tenant.is_none());
    assert_eq!(result.processing_time_ms, 5);

    // A sound domain is not rejected and the scan goes on.
    assert!(checker.validation_failure("example.com", 5).is_none());
}

#[test]
fn tenant_extraction_takes_first_match() {
    let checker = MdiChecker::new(1, 1000);
    let domains = vec!["a.com".to_string(), "contoso.onmicrosoft.com".to_string()];
    assert_eq!(checker.extract_tenant(&domains), Some("contoso".to_string()));

    let no_match = vec!["a.com".to_string(), "b.org".to_string()];
    assert_eq!(checker.extract_tenant(&no_match), None);

    let two = vec![
        "first.onmicrosoft.com".to_string(),
        "second.onmicrosoft.com".to_string(),
    ];
    assert_eq!(checker.extract_tenant(&two), Some("first".to_string()));
}

#[test]
fn cache_round_trip_is_idempotent() {
    let mut checker = MdiChecker::new(1, 1000);
    assert!(checker.cached_result("example.com").is_none());

    let result = DomainResult {
        domain: "example.com".to_string(),
        tenant: Some("contoso".to_string()),
        federated_domains: vec!["example.com".to_string()],
        mdi_instance: Some("contososensorapi.atp.azure.com".to_string()),
        processing_time_ms: 42,
        error: None,
    };
    checker.record_result("example.com", &result);

    let cached = checker.cached_result("example.com").expect("cache hit");
    assert_eq!(cached.domain, result.domain);
    assert_eq!(cached.tenant, result.tenant);
    assert_eq!(cached.federated_domains, result.federated_domains);
    assert_eq!(cached.mdi_instance, result.mdi_instance);
    assert_eq!(cached.processing_time_ms, result.processing_time_ms);
    assert_eq!(cached.error, result.error);

    // A second lookup answers the same, still from the cache.
    let again = checker.cached_result("example.com").expect("cache hit");
    assert_eq!(again.federated_domains, result.federated_domains);
}

#[test]
fn failed_results_are_not_cached() {
    let mut checker = MdiChecker::new(1, 1000);
    let failed = DomainResult {
        domain: "broken.example".to_string(),
        tenant: None,
        federated_domains: vec![],
        mdi_instance: None,
        processing_time_ms: 7,
        error: Some("timed out".to_string()),
    };
    checker.record_result("broken.example", &failed);
    assert!(checker.cached_result("broken.example").is_none());
}

#[test]
fn scan_steps_compose_one_domain_check() {
    let checker = MdiChecker::new(1, 1000);

    // A federation failure ends the scan with that error.
    let step = checker.scan_after_federation(
        "example.com",
        Err("HTTP request failed with status: 503".to_string()),
        12,
    );
    match step {
        ScanStep::Done(res) => {
            assert_eq!(res.error.unwrap(), "HTTP request failed with status: 503");
            assert!(res.federated_domains.is_empty());
            assert_eq!(res.processing_time_ms, 12);
        }
        _ => panic!("a failed federation query must finish the scan"),
    }

    // Without a tenant-naming domain the scan completes without a probe.
    let step = checker.scan_after_federation(
        "example.com",
        Ok(vec!["example.com".to_string(), "example.org".to_string()]),
        20,
    );
    match step {
        ScanStep::Done(res) => {
            assert!(res.error.is_none());
            assert!(res.tenant.is_none());
            assert!(res.mdi_instance.is_none());
            assert_eq!(
                res.federated_domains,
                vec!["example.com".to_string(), "example.org".to_string()]
            );
        }
        _ => panic!("no tenant means no probe"),
    }

    // With a tenant, the probe of its sensor host is requested.
    let step = checker.scan_after_federation(
        "example.com",
        Ok(vec![
            "example.com".to_string(),
            "contoso.onmicrosoft.com".to_string(),
        ]),
        20,
    );
    match step {
        ScanStep::ProbeMdi {
            federated,
            tenant,
            hostname,
        } => {
            assert_eq!(tenant, "contoso");
            assert_eq!(hostname, "contososensorapi.atp.azure.com");
            let resolved = checker.scan_after_probe("example.com", federated, tenant, true, 33);
            assert_eq!(
                resolved.mdi_instance,
                Some("contososensorapi.atp.azure.com".to_string())
            );
            assert_eq!(resolved.tenant, Some("contoso".to_string()));
            assert!(resolved.error.is_none());
            assert_eq!(resolved.processing_time_ms, 33);
        }
        _ => panic!("a tenant was named, the probe must follow"),
    }

    // An unresolved probe is an ordinary answer, not an error.
    let unresolved = checker.scan_after_probe(
        "example.com",
        vec!["contoso.onmicrosoft.com".to_string()],
        "contoso".to_string(),
        false,
        40,
    );
    assert!(unresolved.mdi_instance.is_none());
    assert!(unresolved.error.is_none());
}

#[test]
fn rate_limit_failure_becomes_an_error_result() {
    let checker = MdiChecker::new(1, 1000);
    let res = checker.rate_limit_failure_result("example.com", "semaphore closed");
    assert_eq!(res.domain, "example.com");
    assert_eq!(res.error.unwrap(), "Rate limiting error: semaphore closed");
    assert_eq!(res.processing_time_ms, 0);
}

#[test]
fn mdi_hostname_appends_sensor_suffix() {
    assert_eq!(mdi_hostname("contoso"), "contososensorapi.atp.azure.com");
}

#[test]
fn error_classification_matches_policy() {
    assert!(is_retriable_status(429));
    assert!(is_retriable_status(500));
    assert!(is_retriable_status(503));
    assert!(is_retriable_status(599));
    assert!(!is_retriable_status(404));
    assert!(!is_retriable_status(400));
    assert!(!is_retriable_status(200));

    assert!(is_retriable_dns_error(DnsErrorKind::Timeout));
    assert!(is_retriable_dns_error(DnsErrorKind::NoRecordsFound));
    assert!(is_retriable_dns_error(DnsErrorKind::Proto));
    assert!(is_retriable_dns_error(DnsErrorKind::Io));
    assert!(is_retriable_dns_error(DnsErrorKind::Unknown));
    assert!(!is_retriable_dns_error(DnsErrorKind::OtherResolve));
}

#[test]
fn recording_the_same_domain_twice_keeps_the_newer_result() {
    let mut checker = MdiChecker::new(1, 1000);
    let first = DomainResult {
        domain: "example.com".to_string(),
        tenant: None,
        federated_domains: vec!["example.com".to_string()],
        mdi_instance: None,
        processing_time_ms: 10,
        error: None,
    };
    let second = DomainResult {
        tenant: Some("contoso".to_string()),
        processing_time_ms: 20,
        ..first.clone()
    };
    checker.record_result("example.com", &first);
    checker.record_result("example.com", &second);
    let cached = checker.cached_result("example.com").expect("cache hit");
    assert_eq!(cached.tenant, Some("contoso".to_string()));
    assert_eq!(cached.processing_time_ms, 20);
}

#[test]
fn lookup_outcome_requires_at_least_one_address() {
    assert!(sentri::dns::lookup_outcome("example.com", 3).is_ok());
    assert!(sentri::dns::lookup_outcome("example.com", 1).is_ok());
    assert_eq!(
        sentri::dns::lookup_outcome("example.com", 0).unwrap_err(),
        "No IP addresses found for domain: example.com"
    );
}

#[test]
fn success_status_is_exactly_the_2xx_range() {
    assert!(is_success_status(200));
    assert!(is_success_status(204));
    assert!(is_success_status(299));
    assert!(!is_success_status(199));
    assert!(!is_success_status(300));
    assert!(!is_success_status(404));
    assert!(!is_success_status(503));
}
