use sentri::engine::{DomainResult, FederationInfo, MdiChecker};

#[test]
fn test_mdi_checker_creation() {
    // MdiChecker::new takes just concurrent_requests and timeout_ms
    let checker = MdiChecker::new(10, 500);

    // The configuration is carried as given
    assert_eq!(checker.concurrent_limit, 10);
    assert_eq!(checker.timeout_ms, 500);
}

#[test]
fn test_domain_result_creation() {
    let domain = "test.com".to_string();
    let tenant = Some("test".to_string());
    let federated_domains = vec!["federated.com".to_string()];

    let result = DomainResult {
        domain: domain.clone(),
        tenant: tenant.clone(),
        federated_domains: federated_domains.clone(),
        mdi_instance: Some("mdi.test.com".to_string()),
        processing_time_ms: 100,
        error: None,
    };

    assert_eq!(result.domain, domain);
    assert_eq!(result.tenant, tenant);
    assert!(result.processing_time_ms > 0);

    // Test federated domains
    assert_eq!(result.federated_domains.len(), 1);
    assert_eq!(result.federated_domains[0], "federated.com");
}

#[test]
fn test_federation_info_creation() {
    let domains = vec!["domain1.com".to_string(), "domain2.com".to_string()];

    let federation_info = FederationInfo {
        domains: domains.clone(),
    };

    assert_eq!(federation_info.domains, domains);
}

#[test]
fn test_domain_result_without_federation() {
    // Create a domain result without federation information
    let result = DomainResult {
        domain: "example.com".to_string(),
        tenant: None,
        federated_domains: vec![], // Empty vector for no federated domains
        mdi_instance: None,
        processing_time_ms: 100,
        error: None,
    };

    // Verify the fields reflect a domain without federation
    assert_eq!(result.domain, "example.com");
    assert!(result.tenant.is_none());
    assert!(result.federated_domains.is_empty());
    assert!(result.mdi_instance.is_none());
    assert_eq!(result.processing_time_ms, 100);
    assert!(result.error.is_none());
}

#[test]
fn test_domain_result_with_error() {
    let domain = "error-domain.com".to_string();

    let result = DomainResult {
        domain: domain.clone(),
        tenant: None,
        federated_domains: vec![], // Empty vector for no federated domains
        mdi_instance: None,
        processing_time_ms: 50,
        error: Some("Connection failed".to_string()),
    };

    assert_eq!(result.domain, domain);
    assert!(result.tenant.is_none());
    assert!(result.federated_domains.is_empty());
    assert!(result.mdi_instance.is_none());
    assert_eq!(result.processing_time_ms, 50);
    assert_eq!(result.error.unwrap(), "Connection failed");
}
