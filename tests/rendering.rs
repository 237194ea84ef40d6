use domguard::color::parse_color;
use domguard::correction::{AutomationError, RecoveryStrategy};
use domguard::interact::id_from_nanos;
use domguard::scripts::{
    click_script, dialog_script, element_probe, navigate_script, select_script, type_script, SelectBy,
};
use domguard::security::{format_security_warning, BlockedSitesConfig, SecurityChecker, SensitiveActionDetection};
use domguard::selection::{element_found, MatchError};
use domguard::sites::{format_instructions, SiteInstructionsManager};
use domguard::text::{escape_js, escape_quotes, i64_text, u128_hex, u64_text};

#[test]
fn escaping_for_script_strings() {
    assert_eq!(escape_js("a'b\\c\nd", true), "a\\'b\\\\c\\nd");
    assert_eq!(escape_js("a\nb", false), "a\nb");
}

#[test]
fn probe_and_navigation_scripts() {
    assert_eq!(element_probe("#a'b"), "document.querySelector('#a\\'b') !== null");
    assert_eq!(navigate_script("https://x/"), "window.location.href = 'https://x/'");
}

#[test]
fn click_script_places_index_and_selector() {
    let s = click_script(".item", -1);
    assert!(s.contains("document.querySelectorAll('.item')"));
    assert!(s.contains("const idx = -1 < 0 ? els.length + -1 : -1;"));
    let t = type_script("#q", "it's\nhere");
    assert!(t.contains("nativeSetter.call(el, 'it\\'s\\nhere');"));
}

#[test]
fn numbers_render() {
    assert_eq!(u64_text(0), "0");
    assert_eq!(u64_text(9222), "9222");
    assert_eq!(i64_text(-42), "-42");
    assert_eq!(i64_text(i64::MIN), "-9223372036854775808");
    assert_eq!(u128_hex(0xabc), "abc");
}

#[test]
fn colors() {
    assert_eq!(parse_color("red"), Some((255, 0, 0, 128)));
    assert_eq!(parse_color("  Cyan "), Some((0, 255, 255, 128)));
    assert_eq!(parse_color(" #FFF "), Some((255, 255, 255, 128)));
    assert_eq!(parse_color("#f008"), Some((255, 0, 0, 136)));
    assert_eq!(parse_color("#11223344"), Some((0x11, 0x22, 0x33, 0x44)));
    assert_eq!(parse_color("#00ff00"), Some((0, 255, 0, 128)));
    assert_eq!(parse_color("#12"), None);
    assert_eq!(parse_color("#ggg"), None);
    assert_eq!(parse_color("teal"), None);
}

#[test]
fn ids_are_cut_to_width() {
    assert_eq!(id_from_nanos("takeover-", 0xabc, 20), "takeover-abc");
    assert_eq!(id_from_nanos("", 0x1234_5678_9abc_def0_1234, 12), "123456789abc");
}

#[test]
fn security_warning_text() {
    assert_eq!(format_security_warning(&SensitiveActionDetection::default()), "");
    let checker = SecurityChecker::new(BlockedSitesConfig::default());
    let d = checker.check_type_action("#password", "x");
    assert_eq!(
        format_security_warning(&d),
        "\u{26a0}\u{fe0f} SECURITY WARNING: Typing into password field\n   Type: PasswordInput\n   Severity: High\n   Element: <input>\n"
    );
}

#[test]
fn instructions_summary() {
    let t = SiteInstructionsManager::create_template("a.com");
    let s = format_instructions(&t);
    assert!(s.starts_with("Site: a.com\n  Description: Custom instructions for a.com\n\n  Login Configuration:\n    URL: /login\n"));
    assert!(s.contains("\n  Custom Selectors:\n    search: #search, [name='q']\n    submit: [type='submit']\n"));
    assert!(s.ends_with("\n  Notes:\n    - Add custom notes about this site here\n"));
}

#[test]
fn error_and_strategy_messages() {
    assert_eq!(AutomationError::Unknown("x".to_string()).message(), "Unknown error: x");
    assert_eq!(AutomationError::ClickIntercepted.message(), "Click intercepted by overlay");
    assert_eq!(RecoveryStrategy::WaitAndRetry { delay_ms: 500 }.message(), "Wait 500ms and retry");
    assert_eq!(
        RecoveryStrategy::RequestTakeover { reason: "CAPTCHA detected".to_string() }.message(),
        "Request takeover: CAPTCHA detected"
    );
}

#[test]
fn page_reports() {
    assert_eq!(element_found(Some(true)), Ok(()));
    assert_eq!(element_found(Some(false)), Err(MatchError::NoMatch));
    assert_eq!(element_found(None), Err(MatchError::NoMatch));
}

#[test]
fn dialog_and_select_scripts() {
    use_scripts();
}

fn use_scripts() {
    let d = dialog_script(true, Some("it's"));
    assert!(d.contains("return true; };"));
    assert!(d.contains("return true ? 'it\\'s' : null;"));
    let none = dialog_script(false, None);
    assert!(none.contains("return false ? '' : null;"));
    let by_label = select_script("#c", "Blue", SelectBy::Label);
    assert!(by_label.contains("document.querySelector('#c')"));
    assert!(by_label.contains("select.options[i].text === 'Blue'"));
    let by_value = select_script("#c", "b'1", SelectBy::Value);
    assert!(by_value.contains("select.value = 'b\\'1';"));
    assert_eq!(escape_quotes("a\\'b"), "a\\\\'b");
}
