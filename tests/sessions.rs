use domguard::recording::{
    format_takeover, ActionStatus, SessionStatus, TakeoverReason, TakeoverSession, TakeoverState,
};
use domguard::masking::mask_sensitive;
use domguard::session::{
    export_session_as_bash, export_session_as_markdown, format_action_as_command, uuid_from_nanos,
    ActionBuilder, Session,
};

#[test]
fn test_session_creation() {
    let session = Session::new(Some("Test Session".to_string()));
    assert!(!session.id.is_empty());
    assert_eq!(session.name, Some("Test Session".to_string()));
    assert_eq!(session.status, SessionStatus::Recording);
    assert!(session.actions.is_empty());
}

#[test]
fn test_action_recording() {
    let mut session = Session::new(None);

    let action = ActionBuilder::new("click")
        .with_args("{\"selector\":\".button\"}".to_string())
        .with_selector(Some(".button".to_string()))
        .success();

    session.add_action(action);
    assert_eq!(session.actions.len(), 1);
    assert_eq!(session.actions[0].command, "click");
}

#[test]
fn test_session_summary() {
    let mut session = Session::new(Some("Test".to_string()));

    session.add_action(ActionBuilder::new("click").success());
    session.add_action(ActionBuilder::new("click").success());
    session.add_action(ActionBuilder::new("type").success());
    session.add_action(ActionBuilder::new("type").failed("Element not found"));

    let summary = session.summary();
    assert_eq!(summary.total_actions, 4);
    assert_eq!(summary.successful_actions, 3);
    assert_eq!(summary.failed_actions, 1);
    let count = |c: &str| summary.action_counts.iter().find(|(k, _)| k == c).map(|(_, n)| *n);
    assert_eq!(count("click"), Some(2));
    assert_eq!(count("type"), Some(2));
}

#[test]
fn test_success_rate() {
    let mut session = Session::new(None);

    session.add_action(ActionBuilder::new("click").success());
    session.add_action(ActionBuilder::new("click").success());
    session.add_action(ActionBuilder::new("click").failed("error"));
    session.add_action(ActionBuilder::new("click").success());

    let rate = session.count_with_status(ActionStatus::Success) as f64
        / session.actions.len() as f64;
    assert!((rate - 0.75).abs() < 0.01);
}

#[test]
fn fail_keeps_reason_on_last_action() {
    let mut session = Session::new(None);
    session.add_action(ActionBuilder::new("click").success());
    session.add_action(ActionBuilder::new("type").success());
    session.fail("boom");
    assert_eq!(session.status, SessionStatus::Failed);
    assert!(session.ended_at_ms.is_some());
    assert_eq!(session.actions[1].error.as_deref(), Some("boom"));
    assert_eq!(session.actions[0].error, None);
}

#[test]
fn totals_add_durations() {
    let mut session = Session::new(None);
    let mut a = ActionBuilder::new("click").success();
    a.duration_ms = 40;
    let mut b = ActionBuilder::new("wait").success();
    b.duration_ms = 60;
    session.add_action(a);
    session.add_action(b);
    assert_eq!(session.total_duration_ms(), 100);
}

#[test]
fn uuid_layout() {
    assert_eq!(uuid_from_nanos(0), "0000000000000000-0000-4000-8000-000000000000");
    assert_eq!(
        uuid_from_nanos(0x0123_4567_89ab_cdef),
        "0123456789abcdef-0123-4456-8567-456789abcdef"
    );
}

#[test]
fn test_create_takeover_session() {
    let session = TakeoverSession::new(TakeoverReason::Captcha, "CAPTCHA detected");
    assert_eq!(session.state, TakeoverState::WaitingForUser);
    assert!(session.id.starts_with("takeover-"));
}

#[test]
fn test_complete_takeover() {
    let mut session =
        TakeoverSession::new(TakeoverReason::UserRequested, "User requested control");
    session.complete(true, Some("Done".to_string()));

    assert_eq!(session.state, TakeoverState::ResumeRequested);
    assert_eq!(session.success, Some(true));
    assert!(session.ended_at_ms.is_some());
}

#[test]
fn test_with_url() {
    let session =
        TakeoverSession::new(TakeoverReason::Error, "Error").with_url("https://example.com");
    assert_eq!(session.url, Some("https://example.com".to_string()));
}

#[test]
fn test_with_instructions() {
    let session = TakeoverSession::new(TakeoverReason::Captcha, "CAPTCHA detected")
        .with_instructions("Please solve the CAPTCHA");
    assert_eq!(
        session.instructions,
        Some("Please solve the CAPTCHA".to_string())
    );
}

#[test]
fn takeover_summary_text() {
    let mut session = TakeoverSession::new(TakeoverReason::Custom("two \"steps\"".to_string()), "Check");
    session.id = "takeover-1".to_string();
    session.started_at_ms = 0;
    session.duration_secs = Some(5);
    session.success = Some(false);
    assert_eq!(
        format_takeover(&session),
        "Takeover Session: takeover-1\n  State: Waiting for User\n  Reason: Custom(\"two \\\"steps\\\"\")\n  Message: Check\n  Started: 1970-01-01 00:00:00\n  Duration: 5s\n  Success: No\n"
    );
}

#[test]
fn replay_commands_and_script() {
    let mut session = Session::new(Some("Demo".to_string()));
    session.id = "s1".to_string();
    session.started_at_ms = 86_400_000;
    let click = ActionBuilder::new("click").with_selector(Some("#go".to_string())).success();
    assert_eq!(format_action_as_command(&click), "domguard interact click \"#go\"");
    session.add_action(click);
    session.add_action(ActionBuilder::new("refresh").success());
    assert_eq!(
        export_session_as_bash(&session),
        "#!/bin/bash\n# DOMGuard Session Export\n# Session: Demo\n# ID: s1\n# Recorded: 1970-01-02 00:00:00\n\nset -e  # Exit on error\n\ndomguard interact click \"#go\"\ndomguard interact refresh\n"
    );
}

#[test]
fn secrets_are_masked() {
    assert_eq!(mask_sensitive("login password=hunter2 ok"), "login password=**** ok");
    assert_eq!(mask_sensitive("API-KEY: abc123"), "api_key=****");
    assert_eq!(mask_sensitive("Authorization: bearer xyz"), "Authorization: Bearer ****");
    assert_eq!(mask_sensitive("nothing here"), "nothing here");
}

#[test]
fn markdown_report() {
    let mut session = Session::new(None);
    session.id = "s2".to_string();
    session.started_at_ms = 0;
    let mut a = ActionBuilder::new("type").with_selector(Some("#q".to_string())).failed("nope");
    a.duration_ms = 12;
    session.add_action(a);
    assert_eq!(
        export_session_as_markdown(&session),
        "# DOMGuard Session\n\n**ID:** `s2`\n\n**Recorded:** 1970-01-01 00:00:00\n\n**Total Actions:** 1\n\n## Actions\n\n1. \u{274c} **type** (12ms)\n   - Selector: `#q`\n   - Error: nope\n\n## Replay Commands\n\n```bash\ndomguard interact type \"#q\"\n```\n"
    );
}
