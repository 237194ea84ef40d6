use domguard::captcha::{
    format_captcha_detection, parse_captcha_report, CaptchaDetection, CaptchaRecommendation,
    CaptchaType,
};
use domguard::explanation::{explain_action, format_explanation, ExplanationContext};
use domguard::interact::{safe_timestamp, InteractResult, TabCommand};
use domguard::recording::{SessionError, SessionRecorder, SessionStatus, TakeoverManager, TakeoverState};

#[test]
fn test_default_detection() {
    let detection = CaptchaDetection::default();
    assert!(!detection.detected);
    assert_eq!(detection.recommendation, CaptchaRecommendation::Continue);
}

#[test]
fn test_parse_recaptcha_v2() {
    let detection = parse_captcha_report(
        true,
        Some("recaptcha_v2"),
        Some(".g-recaptcha".to_string()),
        Some("Google reCAPTCHA v2 detected".to_string()),
        false,
    );
    assert!(detection.detected);
    assert_eq!(detection.captcha_type, Some(CaptchaType::RecaptchaV2));
    assert_eq!(detection.recommendation, CaptchaRecommendation::PauseForHuman);
}

#[test]
fn test_parse_cloudflare_challenge() {
    let detection = parse_captcha_report(
        true,
        Some("cloudflare_challenge"),
        Some("#challenge-form".to_string()),
        Some("Cloudflare challenge page detected".to_string()),
        false,
    );
    assert!(detection.detected);
    assert_eq!(detection.captcha_type, Some(CaptchaType::CloudflareChallenge));
    assert_eq!(detection.recommendation, CaptchaRecommendation::Retry);
}

#[test]
fn test_parse_solved_captcha() {
    let detection = parse_captcha_report(
        true,
        Some("hcaptcha"),
        Some(".h-captcha".to_string()),
        Some("hCaptcha detected".to_string()),
        true,
    );
    assert!(detection.detected);
    assert!(detection.appears_solved);
    assert_eq!(detection.recommendation, CaptchaRecommendation::Continue);
}

#[test]
fn test_parse_no_captcha() {
    let detection = parse_captcha_report(false, None, None, None, false);
    assert!(!detection.detected);
}

#[test]
fn captcha_report_text() {
    let d = parse_captcha_report(true, Some("recaptcha_v3"), None, None, false);
    assert_eq!(
        format_captcha_detection(&d),
        "\u{26a0}\u{fe0f}  CAPTCHA detected\n   Type: RecaptchaV3\n   Solved: No\n   Action: Wait for automatic solution\n"
    );
    assert_eq!(format_captcha_detection(&CaptchaDetection::default()), "No CAPTCHA detected");
}

#[test]
fn test_click_explanation() {
    let context = ExplanationContext::default();
    let explanation = explain_action("click", Some("button.submit"), &context);
    assert!(explanation.reason.contains("submit"));
}

#[test]
fn test_navigate_explanation() {
    let mut context = ExplanationContext::default();
    context.current_url = Some("https://example.com".to_string());
    let explanation = explain_action("navigate", Some("https://newsite.com"), &context);
    assert!(explanation.reason.contains("example.com"));
}

#[test]
fn test_type_password() {
    let context = ExplanationContext::default();
    let explanation = explain_action("type", Some("#password"), &context);
    assert!(explanation.reason.contains("password"));
}

#[test]
fn explanation_of_unknown_action_and_format() {
    let mut context = ExplanationContext::default();
    context.current_goal = Some("log in".to_string());
    let e = explain_action("teleport", None, &context);
    assert_eq!(e.reason, "Performing teleport action");
    assert_eq!(
        format_explanation(&e),
        "Action: teleport\nReason: Performing teleport action\nExpected: Action will be executed\nGoal: log in\n"
    );
    let k = explain_action("key", Some("Ctrl+C"), &context);
    assert_eq!(k.reason, "Executing keyboard shortcut: Ctrl+C");
    assert_eq!(k.goal_context, None);
}

#[test]
fn interact_test_safe_timestamp() {
    let ts = safe_timestamp();
    assert!(ts > 1577836800, "timestamp should be after 2020");
}

#[test]
fn debug_test_safe_timestamp() {
    let ts = safe_timestamp();
    assert!(ts > 1577836800, "timestamp should be after 2020");
}

#[test]
fn test_interact_result_display() {
    let result = InteractResult {
        action: "click".to_string(),
        target: Some("#button".to_string()),
        details: Some("clicked".to_string()),
    };
    let display = result.display();
    assert!(display.contains("click"));
    assert!(display.contains("#button"));
    assert!(display.contains("clicked"));
    assert_eq!(display, "click \"#button\" (clicked)");
}

#[test]
fn test_interact_result_display_minimal() {
    let result = InteractResult {
        action: "navigate".to_string(),
        target: None,
        details: None,
    };
    let display = result.display();
    assert_eq!(display, "navigate");
}

#[test]
fn test_tab_command_variants() {
    let list = TabCommand::List;
    let new = TabCommand::New {
        url: Some("https://example.com".to_string()),
    };
    let switch = TabCommand::Switch {
        id: "abc123".to_string(),
    };
    let close = TabCommand::Close {
        id: "def456".to_string(),
    };
    assert!(format!("{:?}", list).contains("List"));
    assert!(format!("{:?}", new).contains("example.com"));
    assert!(format!("{:?}", switch).contains("abc123"));
    assert!(format!("{:?}", close).contains("def456"));
}

#[test]
fn session_commands_follow_the_stored_state() {
    let r = SessionRecorder::new("sessions".to_string());
    assert_eq!(r.active_session_path, "sessions/_active_session.json");
    assert_eq!(r.start(Some(SessionStatus::Recording)), Err(SessionError::AlreadyActive));
    assert_eq!(r.start(Some(SessionStatus::Completed)), Ok(SessionStatus::Recording));
    assert_eq!(r.pause(None), Err(SessionError::NoActiveSession));
    assert_eq!(r.resume(Some(SessionStatus::Paused)), Ok(SessionStatus::Recording));
    assert!(r.is_paused(Some(SessionStatus::Paused)));
    assert!(!r.is_recording(None));
}

#[test]
fn takeover_activity() {
    let m = TakeoverManager::new(".domguard/");
    assert_eq!(m.state_file, ".domguard/_takeover_state.json");
    assert!(m.is_active(Some(TakeoverState::WaitingForUser)));
    assert!(!m.is_active(Some(TakeoverState::Automation)));
    assert!(!m.is_active(None));
    assert_eq!(TakeoverState::default(), TakeoverState::Automation);
}
