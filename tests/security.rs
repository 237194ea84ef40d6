use domguard::security::{
    BlockedSitesConfig, SecurityChecker, SensitiveActionType, Severity,
};

#[test]
fn test_password_detection() {
    let checker = SecurityChecker::new(BlockedSitesConfig::default());
    let result = checker.check_type_action("[type=password]", "secret");
    assert!(result.detected);
    assert_eq!(result.action_type, Some(SensitiveActionType::PasswordInput));
    assert_eq!(result.severity, Severity::High);
}

#[test]
fn test_credit_card_detection() {
    let checker = SecurityChecker::new(BlockedSitesConfig::default());
    let result = checker.check_type_action("#credit-card-number", "1234");
    assert!(result.detected);
    assert_eq!(
        result.action_type,
        Some(SensitiveActionType::SensitiveFieldInput)
    );
}

#[test]
fn test_blocked_site() {
    let mut config = BlockedSitesConfig::default();
    config.blocked.push("malicious-site.com".to_string());

    let checker = SecurityChecker::new(config);
    let result = checker.check_navigation("https://malicious-site.com/phishing");
    assert!(result.detected);
    assert_eq!(result.action_type, Some(SensitiveActionType::BlockedSite));
}

#[test]
fn test_financial_site_detection() {
    let checker = SecurityChecker::new(BlockedSitesConfig::default());
    let result = checker.check_navigation("https://www.bankofamerica.com/");
    assert!(result.detected);
    assert_eq!(result.action_type, Some(SensitiveActionType::FinancialSite));
}

#[test]
fn test_upload_detection() {
    let checker = SecurityChecker::new(BlockedSitesConfig::default());
    let result = checker.check_upload(&vec!["/home/user/passport.pdf".to_string()]);
    assert!(result.detected);
    assert_eq!(result.action_type, Some(SensitiveActionType::FileUpload));
}

#[test]
fn test_normal_action() {
    let checker = SecurityChecker::new(BlockedSitesConfig::default());
    let result = checker.check_type_action("#search-input", "hello");
    assert!(!result.detected);
}

#[test]
fn sensitive_field_reason_names_the_field() {
    let checker = SecurityChecker::new(BlockedSitesConfig::default());
    let result = checker.check_type_action("#CVV", "123");
    assert_eq!(result.reason.as_deref(), Some("Typing into CVV Code field"));
    assert_eq!(result.element_info.unwrap().name.as_deref(), Some("cvv"));
}

#[test]
fn click_severity_depends_on_pattern() {
    let checker = SecurityChecker::new(BlockedSitesConfig::default());
    let del = checker.check_click_action("button.delete-account");
    assert_eq!(del.severity, Severity::Critical);
    assert_eq!(del.reason.as_deref(), Some("Delete action"));
    let login = checker.check_click_action("#login-btn");
    assert_eq!(login.severity, Severity::Medium);
    assert_eq!(login.action_type, Some(SensitiveActionType::PaymentSubmission));
    let plain = checker.check_click_action("#delete-link");
    assert!(!plain.detected);
}

#[test]
fn personal_data_site() {
    let checker = SecurityChecker::new(BlockedSitesConfig::default());
    let r = checker.check_navigation("https://www.IRS.gov/forms");
    assert_eq!(r.action_type, Some(SensitiveActionType::PersonalData));
    assert!(!checker.check_navigation("https://example.org").detected);
}

#[test]
fn default_block_allows_only_listed() {
    let mut config = BlockedSitesConfig::default();
    config.default_block = true;
    config.allow("Example.org");
    assert!(!config.is_blocked("https://example.org/a"));
    assert!(config.is_blocked("https://other.org/"));
}

#[test]
fn block_and_unblock() {
    let mut config = BlockedSitesConfig::default();
    config.block("a.com");
    config.block("a.com");
    config.block("b.com");
    assert_eq!(config.blocked, vec!["a.com".to_string(), "b.com".to_string()]);
    config.unblock("a.com");
    assert_eq!(config.blocked, vec!["b.com".to_string()]);
}

#[test]
fn upload_of_key_file_by_name() {
    let checker = SecurityChecker::new(BlockedSitesConfig::default());
    let r = checker.check_upload(&vec!["/tmp/photo.png".to_string(), "/tmp/MySecret.bin".to_string()]);
    assert_eq!(r.severity, Severity::High);
    assert_eq!(r.reason.as_deref(), Some("Uploading potentially sensitive file: /tmp/MySecret.bin"));
    assert!(!checker.check_upload(&vec!["/tmp/photo.png".to_string()]).detected);
}

#[test]
fn upload_extension_is_read_from_the_file_name() {
    let checker = SecurityChecker::new(BlockedSitesConfig::default());
    let r = checker.check_upload(&vec!["/tmp/report.PDF".to_string()]);
    assert_eq!(r.severity, Severity::Medium);
    assert_eq!(r.action_type, Some(SensitiveActionType::FileUpload));
}

#[test]
fn upload_name_check_ignores_directories() {
    let checker = SecurityChecker::new(BlockedSitesConfig::default());
    assert!(!checker.check_upload(&vec!["/home/bank/photo.png".to_string()]).detected);
}
