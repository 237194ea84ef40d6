use domguard::correction::{classify_error, get_recovery_strategies, AutomationError, RecoveryStrategy};

#[test]
fn test_classify_element_not_found() {
    assert_eq!(
        classify_error("Element not found: #missing-button"),
        AutomationError::ElementNotFound
    );
}

#[test]
fn test_classify_captcha() {
    assert_eq!(
        classify_error("reCAPTCHA challenge detected"),
        AutomationError::CaptchaDetected
    );
}

#[test]
fn test_classify_network() {
    assert_eq!(
        classify_error("Network connection failed"),
        AutomationError::NetworkError
    );
}

#[test]
fn test_get_recovery_strategies_element_not_found() {
    let strategies = get_recovery_strategies(&AutomationError::ElementNotFound, "click");
    assert!(!strategies.is_empty());
    assert!(matches!(strategies[0], RecoveryStrategy::WaitAndRetry { .. }));
}

#[test]
fn test_get_recovery_strategies_captcha() {
    let strategies = get_recovery_strategies(&AutomationError::CaptchaDetected, "click");
    assert_eq!(strategies.len(), 1);
    assert!(matches!(strategies[0], RecoveryStrategy::RequestTakeover { .. }));
}

#[test]
fn classify_no_match_message_is_element_not_found() {
    assert_eq!(
        classify_error("No element matches selector \"#x\""),
        AutomationError::ElementNotFound
    );
}

#[test]
fn classify_uses_lowercased_text() {
    assert_eq!(classify_error("ELEMENT IS HIDDEN"), AutomationError::ElementNotVisible);
    assert_eq!(classify_error("Button is DISABLED"), AutomationError::ElementNotInteractable);
}

#[test]
fn classify_navigation_timeout_needs_both_cues() {
    assert_eq!(
        classify_error("Navigation timeout after 30s"),
        AutomationError::NavigationTimeout
    );
    assert_eq!(
        classify_error("Timeout waiting for \"#a\" (100ms)"),
        AutomationError::Unknown("Timeout waiting for \"#a\" (100ms)".to_string())
    );
}

#[test]
fn classify_order_decides_overlaps() {
    // "not found" comes before "captcha" in the cue order
    assert_eq!(classify_error("captcha widget not found"), AutomationError::ElementNotFound);
    assert_eq!(classify_error("Please sign in to continue"), AutomationError::AuthRequired);
    assert_eq!(classify_error("Unexpected alert open"), AutomationError::UnexpectedDialog);
    assert_eq!(classify_error("stale element reference"), AutomationError::StaleElement);
    assert_eq!(classify_error("click was intercepted"), AutomationError::ClickIntercepted);
    assert_eq!(classify_error("Unexpected page change"), AutomationError::UnexpectedPageChange);
    assert_eq!(classify_error("Uncaught TypeError"), AutomationError::JavaScriptError);
}

#[test]
fn classify_unknown_keeps_the_message() {
    assert_eq!(classify_error("Something Odd"), AutomationError::Unknown("Something Odd".to_string()));
}

#[test]
fn classify_is_repeatable() {
    let a = classify_error("reCAPTCHA challenge detected");
    let _ = classify_error("Network connection failed");
    let b = classify_error("reCAPTCHA challenge detected");
    assert_eq!(a, b);
}

#[test]
fn takeover_is_the_only_step_for_captcha_and_auth() {
    for verb in ["click", "type", "navigate"] {
        let c = get_recovery_strategies(&AutomationError::CaptchaDetected, verb);
        assert_eq!(
            c,
            vec![RecoveryStrategy::RequestTakeover { reason: "CAPTCHA detected".to_string() }]
        );
        let a = get_recovery_strategies(&AutomationError::AuthRequired, verb);
        assert_eq!(
            a,
            vec![RecoveryStrategy::RequestTakeover { reason: "Authentication required".to_string() }]
        );
    }
}

#[test]
fn not_interactable_fallback_follows_the_verb() {
    let click = get_recovery_strategies(&AutomationError::ElementNotInteractable, "click");
    assert!(click.contains(&RecoveryStrategy::ClickViaJs));
    assert!(!click.contains(&RecoveryStrategy::FocusThenType));
    let typ = get_recovery_strategies(&AutomationError::ElementNotInteractable, "type");
    assert!(typ.contains(&RecoveryStrategy::FocusThenType));
    assert!(!typ.contains(&RecoveryStrategy::ClickViaJs));
    assert_eq!(
        typ,
        vec![
            RecoveryStrategy::WaitAndRetry { delay_ms: 300 },
            RecoveryStrategy::ScrollIntoView,
            RecoveryStrategy::DismissOverlay,
            RecoveryStrategy::FocusThenType,
        ]
    );
}

#[test]
fn plan_for_network_error() {
    assert_eq!(
        get_recovery_strategies(&AutomationError::NetworkError, "navigate"),
        vec![
            RecoveryStrategy::WaitAndRetry { delay_ms: 1000 },
            RecoveryStrategy::WaitAndRetry { delay_ms: 3000 },
            RecoveryStrategy::RefreshPage,
        ]
    );
}

#[test]
fn plan_for_unknown_matches_javascript_error() {
    let u = get_recovery_strategies(&AutomationError::Unknown("x".to_string()), "click");
    let j = get_recovery_strategies(&AutomationError::JavaScriptError, "click");
    assert_eq!(u, j);
    assert_eq!(u.len(), 2);
}
