use domguard::sites::{extract_domain, matches_domain_pattern, trim_text, SiteInstructionsManager};
use domguard::workflow::substitute_params;

#[test]
fn test_extract_domain() {
    assert_eq!(extract_domain("https://example.com/path"), Some("example.com".to_string()));
    assert_eq!(extract_domain("http://sub.example.com:8080/"), Some("sub.example.com".to_string()));
    assert_eq!(extract_domain("example.com"), Some("example.com".to_string()));
}

#[test]
fn test_domain_pattern_matching() {
    assert!(matches_domain_pattern("example.com", "example.com"));
    assert!(!matches_domain_pattern("example.com", "sub.example.com"));
    assert!(matches_domain_pattern("*.example.com", "sub.example.com"));
    assert!(matches_domain_pattern("*.example.com", "deep.sub.example.com"));
}

#[test]
fn test_create_template() {
    let template = SiteInstructionsManager::create_template("example.com");
    assert_eq!(template.domain, "example.com");
    assert!(template.login.is_some());
    assert!(template.cookie_consent.is_some());
}

#[test]
fn extract_domain_trims_and_lowercases() {
    assert_eq!(extract_domain("  https://Example.COM/x  "), Some("example.com".to_string()));
    // the scheme is matched as written, before lowercasing
    assert_eq!(extract_domain("HTTPS://a.com/"), Some("https".to_string()));
}

#[test]
fn wildcard_pattern_covers_bare_domain() {
    assert!(matches_domain_pattern("*.example.com", "example.com"));
    assert!(!matches_domain_pattern("*.example.com", "example.org"));
}

#[test]
fn lookup_prefers_exact_domain() {
    let mut m = SiteInstructionsManager::new("sites".to_string());
    m.insert(SiteInstructionsManager::create_template("*.example.com"));
    m.insert(SiteInstructionsManager::create_template("app.example.com"));
    let exact = m.get_for_url("https://app.example.com/login").unwrap();
    assert_eq!(exact.domain, "app.example.com");
    let wild = m.get_for_url("https://www.example.com/").unwrap();
    assert_eq!(wild.domain, "*.example.com");
    assert!(m.get_for_url("https://other.net/").is_none());
    assert_eq!(m.list().len(), 2);
}

#[test]
fn insert_replaces_same_domain() {
    let mut m = SiteInstructionsManager::new("sites".to_string());
    m.insert(SiteInstructionsManager::create_template("a.com"));
    let mut second = SiteInstructionsManager::create_template("a.com");
    second.notes.push("more".to_string());
    m.insert(second);
    assert_eq!(m.list().len(), 1);
    assert_eq!(m.list()[0].notes.len(), 2);
}

#[test]
fn test_substitute_params() {
    let params = vec![
        ("username".to_string(), "john".to_string()),
        ("password".to_string(), "secret".to_string()),
    ];
    let result =
        substitute_params("Hello {{username}}, your password is {{password}}", &params);
    assert_eq!(result, "Hello john, your password is secret");
}

#[test]
fn substitute_replaces_every_occurrence_and_leaves_unknown() {
    let params = vec![("x".to_string(), "1".to_string())];
    assert_eq!(substitute_params("{{x}}+{{x}}={{y}}", &params), "1+1={{y}}");
    assert_eq!(substitute_params("{x}", &params), "{x}");
}

#[test]
fn trimming_matches_std() {
    for s in ["  a b \t\n", "\u{3000}x\u{a0}", "", "   ", "x", "\u{200b}y"] {
        assert_eq!(trim_text(s), s.trim());
    }
}
