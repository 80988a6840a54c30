use sentri::engine::DomainResult;
use sentri::sanitize::{sanitize_domain, sanitize_domain_result, sanitize_error};

#[test]
fn test_sanitize_domain() {
    assert_eq!(sanitize_domain("example.com"), "example.com");
    assert_eq!(
        sanitize_domain("<script>alert(1)</script>"),
        "&lt;script&gt;alert(1)&lt;/script&gt;"
    );
    assert_eq!(
        sanitize_domain("domain.com\n\rinjection"),
        "domain.cominjection"
    );
}

#[test]
fn test_sanitize_error() {
    assert_eq!(
        sanitize_error("Error at /home/user/projects/sentri/src/file.rs"),
        "Error at [REDACTED_PATH]"
    );
}

#[test]
fn test_sanitize_domain_result() {
    let result = DomainResult {
        domain: "<script>evil.com".to_string(),
        tenant: Some("tenant<img src=x>".to_string()),
        federated_domains: vec!["a.com".to_string(), "b.com\n".to_string()],
        mdi_instance: Some("instance.atp.azure.com".to_string()),
        processing_time_ms: 100,
        error: Some("Failed at /home/user/code.rs".to_string()),
    };

    let sanitized = sanitize_domain_result(&result);

    assert_eq!(sanitized.domain, "&lt;script&gt;evil.com");
    assert_eq!(
        sanitized.tenant,
        Some("tenant&lt;img src=x&gt;".to_string())
    );
    assert_eq!(
        sanitized.federated_domains,
        vec!["a.com".to_string(), "b.com".to_string()]
    );
    assert_eq!(
        sanitized.mdi_instance,
        Some("instance.atp.azure.com".to_string())
    );
    assert_eq!(
        sanitized.error,
        Some("Failed at [REDACTED_PATH]".to_string())
    );
}

#[test]
fn test_sanitize_keeps_processing_time_and_none_fields() {
    let result = DomainResult {
        domain: "plain.example".to_string(),
        tenant: None,
        federated_domains: vec![],
        mdi_instance: None,
        processing_time_ms: 77,
        error: None,
    };
    let sanitized = sanitize_domain_result(&result);
    assert_eq!(sanitized.domain, "plain.example");
    assert!(sanitized.tenant.is_none());
    assert!(sanitized.federated_domains.is_empty());
    assert!(sanitized.mdi_instance.is_none());
    assert_eq!(sanitized.processing_time_ms, 77);
    assert!(sanitized.error.is_none());
}

#[test]
fn test_sanitize_escapes_ampersand() {
    assert_eq!(sanitize_domain("a&b.com"), "a&amp;b.com");
    assert_eq!(sanitize_domain("  spaced.example  "), "spaced.example");
}
