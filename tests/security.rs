use ticket_payment::config::Config;
use ticket_payment::security::{create_security_headers_layer, hsts_for_environment, is_production, SecurityHeadersLayer};

#[test]
fn test_security_headers_layer_creation() {
    let layer = SecurityHeadersLayer::new(false);
    assert!(!layer.include_hsts);

    let layer_with_hsts = SecurityHeadersLayer::new(true);
    assert!(layer_with_hsts.include_hsts);
}

#[test]
fn test_from_env_defaults_to_no_hsts() {
    let layer = create_security_headers_layer(None);
    assert!(!layer.include_hsts);
}

#[test]
fn production_enables_hsts_in_any_case() {
    assert!(hsts_for_environment(Some("production")));
    assert!(hsts_for_environment(Some("PRODUCTION")));
    assert!(hsts_for_environment(Some("Production")));
    assert!(!hsts_for_environment(Some("development")));
    assert!(!hsts_for_environment(Some("")));
    assert!(create_security_headers_layer(Some("PrOdUcTiOn")).include_hsts);
}

#[test]
fn production_name_must_match_exactly() {
    assert!(is_production(&"production".to_string()));
    assert!(!is_production(&"PRODUCTION".to_string()));
    assert!(!is_production(&"production ".to_string()));
}

#[test]
fn headers_without_and_with_hsts() {
    let plain = SecurityHeadersLayer::new(false).security_headers();
    assert_eq!(plain.len(), 6);
    assert_eq!(plain[0], ("X-Content-Type-Options".to_string(), "nosniff".to_string()));
    assert_eq!(plain[1], ("X-Frame-Options".to_string(), "DENY".to_string()));
    assert!(plain.iter().all(|(n, _)| n != "Strict-Transport-Security"));
    let strict = SecurityHeadersLayer::new(true).security_headers();
    assert_eq!(strict.len(), 7);
    assert_eq!(
        strict[6],
        (
            "Strict-Transport-Security".to_string(),
            "max-age=31536000; includeSubDomains".to_string()
        )
    );
}

#[test]
fn database_url_defaults() {
    assert_eq!(Config::with_database_url(None).database_url, "postgres://localhost/agora");
    assert_eq!(Config::with_database_url(Some("postgres://db/x".to_string())).database_url, "postgres://db/x");
}
