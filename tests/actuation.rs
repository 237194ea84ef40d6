use domguard::events::{
    console_entry, exception_entry, format_stack, EventCollector, StackFrame,
};
use domguard::poll::{
    navigation_arrived, wait_probe, wait_script, wait_timeout_message, PollAction, PollWaiter,
    Probe, WaitPolicy, WaitSubject,
};
use domguard::selection::{interpret_click_report, resolve_nth, ClickReport, MatchBy, MatchError};
use domguard::target::{choose_target, list_tabs, TargetChoice, TargetInfo};

fn target(kind: &str, url: &str) -> TargetInfo {
    TargetInfo {
        id: format!("id-{}", url),
        kind: kind.to_string(),
        url: url.to_string(),
        title: String::new(),
    }
}

#[test]
fn nth_scenario_three_items() {
    assert_eq!(resolve_nth(-1, 3), Ok(2));
    assert_eq!(
        resolve_nth(3, 3),
        Err(MatchError::IndexOutOfBounds { requested: 3, available: 3 })
    );
}

#[test]
fn negative_index_matches_positive_from_end() {
    for n in 1u64..6 {
        for nth in -(n as i32)..0 {
            assert_eq!(resolve_nth(nth, n), resolve_nth(n as i32 + nth, n));
            assert!(resolve_nth(nth, n).is_ok());
        }
    }
}

#[test]
fn out_of_range_index_is_reported() {
    assert_eq!(
        resolve_nth(-4, 3),
        Err(MatchError::IndexOutOfBounds { requested: -1, available: 3 })
    );
    assert_eq!(resolve_nth(0, 0), Err(MatchError::NoMatch));
    assert_eq!(
        resolve_nth(i32::MIN, 2),
        Err(MatchError::IndexOutOfBounds { requested: i32::MIN as i64 + 2, available: 2 })
    );
}

#[test]
fn click_report_outcomes() {
    let ok = ClickReport { found: Some(true), count: None };
    assert_eq!(interpret_click_report(&ok, 0), Ok(()));
    let none = ClickReport { found: Some(false), count: Some(0) };
    assert_eq!(interpret_click_report(&none, 0), Err(MatchError::NoMatch));
    let oob = ClickReport { found: Some(false), count: Some(3) };
    assert_eq!(
        interpret_click_report(&oob, 5),
        Err(MatchError::IndexOutOfBounds { requested: 5, available: 3 })
    );
    assert_eq!(
        interpret_click_report(&oob, -4),
        Err(MatchError::IndexOutOfBounds { requested: -1, available: 3 })
    );
    assert_eq!(interpret_click_report(&oob, -1), Err(MatchError::NoMatch));
}

#[test]
fn match_error_messages() {
    assert_eq!(
        MatchError::NoMatch.message(MatchBy::Selector, "#x"),
        "No element matches selector \"#x\""
    );
    assert_eq!(
        MatchError::IndexOutOfBounds { requested: -2, available: 3 }.message(MatchBy::Text, "Buy"),
        "Index -2 out of bounds, found 3 element(s) containing \"Buy\""
    );
}

#[test]
fn poll_true_at_start_finishes_without_sleep() {
    let w = PollWaiter::new(0, WaitPolicy::Strict);
    assert_eq!(w.on_probe(Probe::Holds, 0), PollAction::Satisfied);
    // a first reading already past the timeout still ends in success
    assert_eq!(w.on_probe(Probe::Holds, 1), PollAction::Satisfied);
}

fn run_never_true(timeout: u64) -> PollAction {
    let w = PollWaiter::new(timeout, WaitPolicy::Strict);
    let mut elapsed: u64 = 0;
    loop {
        match w.on_probe(Probe::Pending, elapsed) {
            PollAction::Sleep { ms } => {
                assert!(ms > 0 && ms <= 100);
                elapsed += ms;
            }
            other => return other,
        }
    }
}

#[test]
fn poll_never_true_times_out_within_one_interval() {
    assert_eq!(run_never_true(250), PollAction::TimedOut { elapsed_ms: 250 });
    assert_eq!(run_never_true(1000), PollAction::TimedOut { elapsed_ms: 1000 });
    assert_eq!(run_never_true(5000), PollAction::TimedOut { elapsed_ms: 5000 });
    assert_eq!(run_never_true(0), PollAction::TimedOut { elapsed_ms: 0 });
}

#[test]
fn poll_pause_never_passes_the_timeout() {
    let w = PollWaiter::new(1000, WaitPolicy::Strict);
    assert_eq!(w.on_probe(Probe::Pending, 950), PollAction::Sleep { ms: 50 });
    assert_eq!(w.on_probe(Probe::Pending, 1000), PollAction::TimedOut { elapsed_ms: 1000 });
    assert_eq!(w.on_probe(Probe::Pending, 1030), PollAction::TimedOut { elapsed_ms: 1030 });
}

#[test]
fn poll_policies_on_eval_error() {
    assert_eq!(
        PollWaiter::new(10, WaitPolicy::Strict).on_probe(Probe::EvalError, 0),
        PollAction::Failed
    );
    assert_eq!(
        PollWaiter::new(10, WaitPolicy::Lenient).on_probe(Probe::EvalError, 0),
        PollAction::Satisfied
    );
}

#[test]
fn wait_subjects() {
    assert_eq!(WaitSubject::ElementGone.policy(), WaitPolicy::Lenient);
    assert_eq!(WaitSubject::Text.policy(), WaitPolicy::Strict);
    assert_eq!(wait_probe(WaitSubject::ElementGone, Some(Some(false))), Probe::Holds);
    assert_eq!(wait_probe(WaitSubject::ElementGone, Some(Some(true))), Probe::Pending);
    assert_eq!(wait_probe(WaitSubject::Element, Some(Some(true))), Probe::Holds);
    assert_eq!(wait_probe(WaitSubject::Element, Some(None)), Probe::Pending);
    assert_eq!(wait_probe(WaitSubject::Text, None), Probe::EvalError);
    assert_eq!(wait_script(WaitSubject::ElementGone, "#a"), "document.querySelector('#a') !== null");
}

#[test]
fn navigation_redirect_counts_as_arrival() {
    assert!(navigation_arrived("https://a.test/y", "https://a.test/x", "interactive"));
    assert!(navigation_arrived("https://a.test/y", "https://a.test/x", "complete"));
    assert!(!navigation_arrived("https://a.test/y", "https://a.test/x", "loading"));
    assert!(!navigation_arrived("about:blank", "https://a.test/x", "complete"));
}

#[test]
fn wait_timeout_messages() {
    assert_eq!(
        wait_timeout_message(WaitSubject::Element, "#a", 500),
        "Timeout waiting for \"#a\" (500ms)"
    );
    assert_eq!(
        wait_timeout_message(WaitSubject::TextGone, "Loading", 100),
        "Timeout waiting for text \"Loading\" to disappear (100ms)"
    );
}

#[test]
fn collect_with_zero_timeout_is_empty() {
    let c = EventCollector::new(0);
    assert_eq!(c.remaining(0), None);
    assert!(c.finish().is_empty());
}

#[test]
fn collector_keeps_arrival_order() {
    let mut c = EventCollector::new(1000);
    assert_eq!(c.remaining(400), Some(600));
    c.record(console_entry("Log", &vec!["a".to_string(), "1".to_string()], &None, 5));
    c.record(exception_entry(None, "boom".to_string(), None, 7, &None, 6));
    assert_eq!(c.remaining(1000), None);
    let entries = c.finish();
    assert_eq!(entries.len(), 2);
    assert_eq!(entries[0].text, "a 1");
    assert_eq!(entries[0].level, "log");
    assert_eq!(entries[1].source, "exception");
    assert_eq!(entries[1].line, Some(7));
}

#[test]
fn stack_is_cut_to_five_frames() {
    let frames: Vec<StackFrame> = (0..7)
        .map(|i| StackFrame {
            function_name: format!("f{}", i),
            url: "u.js".to_string(),
            line_number: i,
            column_number: 1,
        })
        .collect();
    let text = format_stack(&frames);
    assert_eq!(text.lines().count(), 5);
    assert!(text.starts_with("    at f0 (u.js:0:1)\n    at f1 (u.js:1:1)"));
    assert!(!text.contains("f5"));
}

#[test]
fn target_prefers_content_then_blank() {
    let ts = vec![
        target("service_worker", "https://a.test/"),
        target("page", "chrome://newtab/"),
        target("page", "about:blank"),
        target("page", "https://b.test/"),
    ];
    assert_eq!(choose_target(&ts), TargetChoice::Attach(3));
    let blank_only = vec![target("page", "devtools://x"), target("page", "about:blank")];
    assert_eq!(choose_target(&blank_only), TargetChoice::Attach(1));
    assert_eq!(choose_target(&vec![]), TargetChoice::CreateBlank);
    let tabs = list_tabs(&ts);
    assert_eq!(tabs.len(), 2);
    assert_eq!(tabs[1].url, "https://b.test/");
}
