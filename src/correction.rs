//! Failure classification and advisory recovery planning.
//!
//! A failure message is mapped, by an ordered list of substring cues, to one
//! kind of a closed taxonomy; a kind (with the verb of the failed action) is
//! mapped to an ordered list of remediation steps. Nothing here executes a
//! step: the plan is handed back to the caller.

use vstd::prelude::*;
use crate::text::{has_sub, lower_of, lowercase, chars_of, vec_has_sub, text_eq, join2, digits_of, u64_text};

verus! {

/// Kinds of failure that an automated action can run into.
#[derive(Debug, Clone, PartialEq)]
pub enum AutomationError {
    ElementNotFound,
    ElementNotVisible,
    ElementNotInteractable,
    NavigationTimeout,
    NetworkError,
    JavaScriptError,
    CaptchaDetected,
    AuthRequired,
    UnexpectedDialog,
    UnexpectedPageChange,
    StaleElement,
    ClickIntercepted,
    /// No cue matched; holds the message as given.
    Unknown(String),
}

/// The mathematical value of an `AutomationError`.
pub enum ErrorKind {
    ElementNotFound,
    ElementNotVisible,
    ElementNotInteractable,
    NavigationTimeout,
    NetworkError,
    JavaScriptError,
    CaptchaDetected,
    AuthRequired,
    UnexpectedDialog,
    UnexpectedPageChange,
    StaleElement,
    ClickIntercepted,
    Unknown(Seq<char>),
}

impl View for AutomationError {
    type V = ErrorKind;

    open spec fn view(&self) -> ErrorKind {
        match self {
            AutomationError::ElementNotFound => ErrorKind::ElementNotFound,
            AutomationError::ElementNotVisible => ErrorKind::ElementNotVisible,
            AutomationError::ElementNotInteractable => ErrorKind::ElementNotInteractable,
            AutomationError::NavigationTimeout => ErrorKind::NavigationTimeout,
            AutomationError::NetworkError => ErrorKind::NetworkError,
            AutomationError::JavaScriptError => ErrorKind::JavaScriptError,
            AutomationError::CaptchaDetected => ErrorKind::CaptchaDetected,
            AutomationError::AuthRequired => ErrorKind::AuthRequired,
            AutomationError::UnexpectedDialog => ErrorKind::UnexpectedDialog,
            AutomationError::UnexpectedPageChange => ErrorKind::UnexpectedPageChange,
            AutomationError::StaleElement => ErrorKind::StaleElement,
            AutomationError::ClickIntercepted => ErrorKind::ClickIntercepted,
            AutomationError::Unknown(m) => ErrorKind::Unknown(m@),
        }
    }
}

/// One advisory remediation step.
#[derive(Debug, Clone, PartialEq)]
pub enum RecoveryStrategy {
    WaitAndRetry { delay_ms: u64 },
    ScrollIntoView,
    DismissOverlay,
    RefreshPage,
    NavigateBackForward,
    ClearCookies,
    CloseDialog,
    WaitForStable,
    TryAlternateSelector { selectors: Vec<String> },
    ScrollAndSearch,
    ClickViaJs,
    FocusThenType,
    RequestTakeover { reason: String },
}

/// The mathematical value of a `RecoveryStrategy`.
pub enum StrategyModel {
    WaitAndRetry { delay_ms: u64 },
    ScrollIntoView,
    DismissOverlay,
    RefreshPage,
    NavigateBackForward,
    ClearCookies,
    CloseDialog,
    WaitForStable,
    TryAlternateSelector { selectors: Seq<Seq<char>> },
    ScrollAndSearch,
    ClickViaJs,
    FocusThenType,
    RequestTakeover { reason: Seq<char> },
}

impl View for RecoveryStrategy {
    type V = StrategyModel;

    open spec fn view(&self) -> StrategyModel {
        match self {
            RecoveryStrategy::WaitAndRetry { delay_ms } => StrategyModel::WaitAndRetry {
                delay_ms: *delay_ms,
            },
            RecoveryStrategy::ScrollIntoView => StrategyModel::ScrollIntoView,
            RecoveryStrategy::DismissOverlay => StrategyModel::DismissOverlay,
            RecoveryStrategy::RefreshPage => StrategyModel::RefreshPage,
            RecoveryStrategy::NavigateBackForward => StrategyModel::NavigateBackForward,
            RecoveryStrategy::ClearCookies => StrategyModel::ClearCookies,
            RecoveryStrategy::CloseDialog => StrategyModel::CloseDialog,
            RecoveryStrategy::WaitForStable => StrategyModel::WaitForStable,
            RecoveryStrategy::TryAlternateSelector { selectors } =>
                StrategyModel::TryAlternateSelector {
                    selectors: selectors@.map_values(|s: String| s@),
                },
            RecoveryStrategy::ScrollAndSearch => StrategyModel::ScrollAndSearch,
            RecoveryStrategy::ClickViaJs => StrategyModel::ClickViaJs,
            RecoveryStrategy::FocusThenType => StrategyModel::FocusThenType,
            RecoveryStrategy::RequestTakeover { reason } => StrategyModel::RequestTakeover {
                reason: reason@,
            },
        }
    }
}

/// The views of a list of strategies.
pub open spec fn strategies_view(v: Seq<RecoveryStrategy>) -> Seq<StrategyModel> {
    v.map_values(|s: RecoveryStrategy| s@)
}

/// The ordered cue list: the first group whose cue occurs in the lowercased
/// message decides the kind; with no match the message is kept as given.
pub open spec fn classify_spec(lower: Seq<char>, message: Seq<char>) -> ErrorKind {
    if has_sub(lower, "not found"@) || has_sub(lower, "no element"@) || has_sub(
        lower,
        "could not find"@,
    ) {
        ErrorKind::ElementNotFound
    } else if has_sub(lower, "not visible"@) || has_sub(lower, "hidden"@) || has_sub(
        lower,
        "display: none"@,
    ) {
        ErrorKind::ElementNotVisible
    } else if has_sub(lower, "not interactable"@) || has_sub(lower, "disabled"@) || has_sub(
        lower,
        "readonly"@,
    ) {
        ErrorKind::ElementNotInteractable
    } else if has_sub(lower, "navigation"@) && has_sub(lower, "timeout"@) {
        ErrorKind::NavigationTimeout
    } else if has_sub(lower, "network"@) || has_sub(lower, "fetch"@) || has_sub(
        lower,
        "connection"@,
    ) {
        ErrorKind::NetworkError
    } else if has_sub(lower, "javascript"@) || has_sub(lower, "script error"@) || has_sub(
        lower,
        "uncaught"@,
    ) {
        ErrorKind::JavaScriptError
    } else if has_sub(lower, "captcha"@) || has_sub(lower, "recaptcha"@) || has_sub(
        lower,
        "hcaptcha"@,
    ) {
        ErrorKind::CaptchaDetected
    } else if has_sub(lower, "login"@) || has_sub(lower, "sign in"@) || has_sub(
        lower,
        "authentication"@,
    ) {
        ErrorKind::AuthRequired
    } else if has_sub(lower, "dialog"@) || has_sub(lower, "alert"@) || has_sub(
        lower,
        "confirm"@,
    ) {
        ErrorKind::UnexpectedDialog
    } else if has_sub(lower, "stale"@) || has_sub(lower, "detached"@) || has_sub(
        lower,
        "removed from dom"@,
    ) {
        ErrorKind::StaleElement
    } else if has_sub(lower, "intercepted"@) || has_sub(lower, "obscured"@) || has_sub(
        lower,
        "overlay"@,
    ) {
        ErrorKind::ClickIntercepted
    } else if has_sub(lower, "unexpected"@) && (has_sub(lower, "page"@) || has_sub(lower, "url"@)
        || has_sub(lower, "navigate"@)) {
        ErrorKind::UnexpectedPageChange
    } else {
        ErrorKind::Unknown(message)
    }
}

/// Whether the cue `p` occurs in the character vector `l`.
fn cue(l: &Vec<char>, p: &str) -> (r: bool)
    ensures
        r == has_sub(l@, p@),
{
    let pv = chars_of(p);
    vec_has_sub(l, &pv)
}

/// Classifies a message that has already been lowercased; `message`, as given, is kept
/// when no cue matches.
pub fn classify_lowered(lower: &str, message: &str) -> (r: AutomationError)
    ensures
        r@ == classify_spec(lower@, message@),
{
    let l = chars_of(lower);
    if cue(&l, "not found") || cue(&l, "no element") || cue(&l, "could not find") {
        AutomationError::ElementNotFound
    } else if cue(&l, "not visible") || cue(&l, "hidden") || cue(&l, "display: none") {
        AutomationError::ElementNotVisible
    } else if cue(&l, "not interactable") || cue(&l, "disabled") || cue(&l, "readonly") {
        AutomationError::ElementNotInteractable
    } else if cue(&l, "navigation") && cue(&l, "timeout") {
        AutomationError::NavigationTimeout
    } else if cue(&l, "network") || cue(&l, "fetch") || cue(&l, "connection") {
        AutomationError::NetworkError
    } else if cue(&l, "javascript") || cue(&l, "script error") || cue(&l, "uncaught") {
        AutomationError::JavaScriptError
    } else if cue(&l, "captcha") || cue(&l, "recaptcha") || cue(&l, "hcaptcha") {
        AutomationError::CaptchaDetected
    } else if cue(&l, "login") || cue(&l, "sign in") || cue(&l, "authentication") {
        AutomationError::AuthRequired
    } else if cue(&l, "dialog") || cue(&l, "alert") || cue(&l, "confirm") {
        AutomationError::UnexpectedDialog
    } else if cue(&l, "stale") || cue(&l, "detached") || cue(&l, "removed from dom") {
        AutomationError::StaleElement
    } else if cue(&l, "intercepted") || cue(&l, "obscured") || cue(&l, "overlay") {
        AutomationError::ClickIntercepted
    } else if cue(&l, "unexpected") && (cue(&l, "page") || cue(&l, "url") || cue(&l, "navigate")) {
        AutomationError::UnexpectedPageChange
    } else {
        AutomationError::Unknown(message.to_owned())
    }
}

/// Classifies a failure message into one kind; the cues are matched against
/// the lowercased message, in a fixed order.
pub fn classify_error(error_message: &str) -> (r: AutomationError)
    ensures
        r@ == classify_spec(lower_of(error_message@), error_message@),
{
    let lower = lowercase(error_message);
    classify_lowered(lower.as_str(), error_message)
}

/// Classification is a function of the message alone: equal messages get
/// equal kinds, whatever was classified before.
pub proof fn classify_deterministic(a: Seq<char>, b: Seq<char>)
    requires
        a == b,
    ensures
        classify_spec(lower_of(a), a) == classify_spec(lower_of(b), b),
{
}

/// The ordered plan for a kind of failure and the verb of the failed action.
pub open spec fn plan_spec(e: ErrorKind, action: Seq<char>) -> Seq<StrategyModel> {
    match e {
        ErrorKind::ElementNotFound => seq![
            StrategyModel::WaitAndRetry { delay_ms: 500 },
            StrategyModel::WaitForStable,
            StrategyModel::ScrollAndSearch,
            StrategyModel::WaitAndRetry { delay_ms: 1000 },
            StrategyModel::RefreshPage,
        ],
        ErrorKind::ElementNotVisible => seq![
            StrategyModel::ScrollIntoView,
            StrategyModel::WaitAndRetry { delay_ms: 500 },
            StrategyModel::DismissOverlay,
            StrategyModel::ScrollAndSearch,
        ],
        ErrorKind::ElementNotInteractable => seq![
            StrategyModel::WaitAndRetry { delay_ms: 300 },
            StrategyModel::ScrollIntoView,
            StrategyModel::DismissOverlay,
            if action == "click"@ {
                StrategyModel::ClickViaJs
            } else {
                StrategyModel::FocusThenType
            },
        ],
        ErrorKind::NavigationTimeout => seq![
            StrategyModel::WaitAndRetry { delay_ms: 2000 },
            StrategyModel::RefreshPage,
            StrategyModel::NavigateBackForward,
        ],
        ErrorKind::NetworkError => seq![
            StrategyModel::WaitAndRetry { delay_ms: 1000 },
            StrategyModel::WaitAndRetry { delay_ms: 3000 },
            StrategyModel::RefreshPage,
        ],
        ErrorKind::CaptchaDetected => seq![
            StrategyModel::RequestTakeover { reason: "CAPTCHA detected"@ },
        ],
        ErrorKind::AuthRequired => seq![
            StrategyModel::RequestTakeover { reason: "Authentication required"@ },
        ],
        ErrorKind::UnexpectedDialog => seq![
            StrategyModel::CloseDialog,
            StrategyModel::WaitAndRetry { delay_ms: 300 },
        ],
        ErrorKind::UnexpectedPageChange => seq![
            StrategyModel::NavigateBackForward,
            StrategyModel::WaitForStable,
        ],
        ErrorKind::StaleElement => seq![
            StrategyModel::WaitAndRetry { delay_ms: 200 },
            StrategyModel::WaitForStable,
            StrategyModel::RefreshPage,
        ],
        ErrorKind::ClickIntercepted => seq![
            StrategyModel::WaitAndRetry { delay_ms: 300 },
            StrategyModel::DismissOverlay,
            StrategyModel::ScrollIntoView,
            StrategyModel::ClickViaJs,
        ],
        ErrorKind::JavaScriptError | ErrorKind::Unknown(_) => seq![
            StrategyModel::WaitAndRetry { delay_ms: 500 },
            StrategyModel::RefreshPage,
        ],
    }
}

/// The ordered recovery plan for a failure; cheaper and safer steps come first.
pub fn get_recovery_strategies(error: &AutomationError, action: &str) -> (r: Vec<RecoveryStrategy>)
    ensures
        strategies_view(r@) == plan_spec(error@, action@),
{
    let mut v: Vec<RecoveryStrategy> = Vec::new();
    match error {
        AutomationError::ElementNotFound => {
            v.push(RecoveryStrategy::WaitAndRetry { delay_ms: 500 });
            v.push(RecoveryStrategy::WaitForStable);
            v.push(RecoveryStrategy::ScrollAndSearch);
            v.push(RecoveryStrategy::WaitAndRetry { delay_ms: 1000 });
            v.push(RecoveryStrategy::RefreshPage);
        },
        AutomationError::ElementNotVisible => {
            v.push(RecoveryStrategy::ScrollIntoView);
            v.push(RecoveryStrategy::WaitAndRetry { delay_ms: 500 });
            v.push(RecoveryStrategy::DismissOverlay);
            v.push(RecoveryStrategy::ScrollAndSearch);
        },
        AutomationError::ElementNotInteractable => {
            v.push(RecoveryStrategy::WaitAndRetry { delay_ms: 300 });
            v.push(RecoveryStrategy::ScrollIntoView);
            v.push(RecoveryStrategy::DismissOverlay);
            if text_eq(action, "click") {
                v.push(RecoveryStrategy::ClickViaJs);
            } else {
                v.push(RecoveryStrategy::FocusThenType);
            }
        },
        AutomationError::NavigationTimeout => {
            v.push(RecoveryStrategy::WaitAndRetry { delay_ms: 2000 });
            v.push(RecoveryStrategy::RefreshPage);
            v.push(RecoveryStrategy::NavigateBackForward);
        },
        AutomationError::NetworkError => {
            v.push(RecoveryStrategy::WaitAndRetry { delay_ms: 1000 });
            v.push(RecoveryStrategy::WaitAndRetry { delay_ms: 3000 });
            v.push(RecoveryStrategy::RefreshPage);
        },
        AutomationError::CaptchaDetected => {
            v.push(RecoveryStrategy::RequestTakeover { reason: "CAPTCHA detected".to_owned() });
        },
        AutomationError::AuthRequired => {
            v.push(
                RecoveryStrategy::RequestTakeover { reason: "Authentication required".to_owned() },
            );
        },
        AutomationError::UnexpectedDialog => {
            v.push(RecoveryStrategy::CloseDialog);
            v.push(RecoveryStrategy::WaitAndRetry { delay_ms: 300 });
        },
        AutomationError::UnexpectedPageChange => {
            v.push(RecoveryStrategy::NavigateBackForward);
            v.push(RecoveryStrategy::WaitForStable);
        },
        AutomationError::StaleElement => {
            v.push(RecoveryStrategy::WaitAndRetry { delay_ms: 200 });
            v.push(RecoveryStrategy::WaitForStable);
            v.push(RecoveryStrategy::RefreshPage);
        },
        AutomationError::ClickIntercepted => {
            v.push(RecoveryStrategy::WaitAndRetry { delay_ms: 300 });
            v.push(RecoveryStrategy::DismissOverlay);
            v.push(RecoveryStrategy::ScrollIntoView);
            v.push(RecoveryStrategy::ClickViaJs);
        },
        AutomationError::JavaScriptError | AutomationError::Unknown(_) => {
            v.push(RecoveryStrategy::WaitAndRetry { delay_ms: 500 });
            v.push(RecoveryStrategy::RefreshPage);
        },
    }
    assert(strategies_view(v@) =~= plan_spec(error@, action@));
    v
}

/// Failures that need a person (a CAPTCHA, a login) get exactly one step, a
/// request for takeover: no automated remediation is proposed for them.
pub proof fn takeover_is_sole_step(e: ErrorKind, action: Seq<char>)
    requires
        e is CaptchaDetected || e is AuthRequired,
    ensures
        plan_spec(e, action).len() == 1,
        plan_spec(e, action)[0] is RequestTakeover,
{
}

/// A takeover request, when a plan holds one, is its last step.
pub proof fn takeover_comes_last(e: ErrorKind, action: Seq<char>, i: int)
    requires
        0 <= i < plan_spec(e, action).len(),
        plan_spec(e, action)[i] is RequestTakeover,
    ensures
        i == plan_spec(e, action).len() - 1,
{
}

/// For an element that cannot be interacted with, the fallback follows the
/// verb: a click is retried through script, anything else focuses first.
pub proof fn not_interactable_fallback_follows_verb(action: Seq<char>)
    ensures
        action == "click"@ ==> plan_spec(ErrorKind::ElementNotInteractable, action).contains(
            StrategyModel::ClickViaJs,
        ),
        action != "click"@ ==> plan_spec(ErrorKind::ElementNotInteractable, action).contains(
            StrategyModel::FocusThenType,
        ) && !plan_spec(ErrorKind::ElementNotInteractable, action).contains(
            StrategyModel::ClickViaJs,
        ),
{
    let p = plan_spec(ErrorKind::ElementNotInteractable, action);
    if action == "click"@ {
        assert(p[3] == StrategyModel::ClickViaJs);
    } else {
        assert(p[3] == StrategyModel::FocusThenType);
        assert forall|i: int| 0 <= i < p.len() implies p[i] != StrategyModel::ClickViaJs by {}
    }
}

/// The script that hides common overlays (cookie banners, modals, pop-ups)
/// and clicks their close buttons; it returns whether anything was dismissed.
pub fn dismiss_overlay_script() -> &'static str {
    r#"
    (function() {
        // Common overlay selectors
        const overlaySelectors = [
            '.modal-backdrop',
            '.overlay',
            '.popup-overlay',
            '[class*="modal"]',
            '[class*="overlay"]',
            '[class*="backdrop"]',
            '.cookie-banner',
            '.cookie-consent',
            '[class*="cookie"]',
            '.gdpr-consent',
            '.notification-banner',
            '.promo-popup',
            '.subscribe-popup',
            '.newsletter-popup'
        ];

        // Close button selectors
        const closeSelectors = [
            '.close',
            '.close-btn',
            '.close-button',
            '[aria-label="Close"]',
            '[aria-label="close"]',
            'button[class*="close"]',
            '.modal-close',
            '.dismiss',
            '.cancel'
        ];

        let dismissed = false;

        // Try clicking close buttons first
        for (const selector of closeSelectors) {
            const buttons = document.querySelectorAll(selector);
            for (const btn of buttons) {
                if (btn.offsetParent !== null) { // visible
                    try {
                        btn.click();
                        dismissed = true;
                    } catch (e) {}
                }
            }
        }

        // Hide overlays directly
        for (const selector of overlaySelectors) {
            const elements = document.querySelectorAll(selector);
            for (const el of elements) {
                if (el.offsetParent !== null) {
                    try {
                        el.style.display = 'none';
                        dismissed = true;
                    } catch (e) {}
                }
            }
        }

        return dismissed;
    })()
    "#
}

/// The script that waits, up to three seconds, until the document stops
/// changing; it returns whether it settled and how long that took.
pub fn wait_stable_script() -> &'static str {
    r#"
    (async function() {
        const startTime = Date.now();
        const maxWait = 3000;
        const checkInterval = 200;

        let lastHTML = document.documentElement.outerHTML;
        let stableCount = 0;
        const requiredStableChecks = 3;

        while (Date.now() - startTime < maxWait) {
            await new Promise(r => setTimeout(r, checkInterval));

            const currentHTML = document.documentElement.outerHTML;
            if (currentHTML === lastHTML) {
                stableCount++;
                if (stableCount >= requiredStableChecks) {
                    return { stable: true, duration: Date.now() - startTime };
                }
            } else {
                stableCount = 0;
                lastHTML = currentHTML;
            }
        }

        return { stable: false, duration: Date.now() - startTime };
    })()
    "#
}

/// The line that names a kind of failure.
pub open spec fn error_text(e: ErrorKind) -> Seq<char> {
    match e {
        ErrorKind::ElementNotFound => "Element not found"@,
        ErrorKind::ElementNotVisible => "Element not visible"@,
        ErrorKind::ElementNotInteractable => "Element not interactable"@,
        ErrorKind::NavigationTimeout => "Navigation timeout"@,
        ErrorKind::NetworkError => "Network error"@,
        ErrorKind::JavaScriptError => "JavaScript error"@,
        ErrorKind::CaptchaDetected => "CAPTCHA detected"@,
        ErrorKind::AuthRequired => "Authentication required"@,
        ErrorKind::UnexpectedDialog => "Unexpected dialog"@,
        ErrorKind::UnexpectedPageChange => "Unexpected page change"@,
        ErrorKind::StaleElement => "Stale element reference"@,
        ErrorKind::ClickIntercepted => "Click intercepted by overlay"@,
        ErrorKind::Unknown(m) => "Unknown error: "@ + m,
    }
}

impl AutomationError {
    /// The line that names this failure.
    pub fn message(&self) -> (r: String)
        ensures
            r@ == error_text(self@),
    {
        match self {
            AutomationError::ElementNotFound => "Element not found".to_owned(),
            AutomationError::ElementNotVisible => "Element not visible".to_owned(),
            AutomationError::ElementNotInteractable => "Element not interactable".to_owned(),
            AutomationError::NavigationTimeout => "Navigation timeout".to_owned(),
            AutomationError::NetworkError => "Network error".to_owned(),
            AutomationError::JavaScriptError => "JavaScript error".to_owned(),
            AutomationError::CaptchaDetected => "CAPTCHA detected".to_owned(),
            AutomationError::AuthRequired => "Authentication required".to_owned(),
            AutomationError::UnexpectedDialog => "Unexpected dialog".to_owned(),
            AutomationError::UnexpectedPageChange => "Unexpected page change".to_owned(),
            AutomationError::StaleElement => "Stale element reference".to_owned(),
            AutomationError::ClickIntercepted => "Click intercepted by overlay".to_owned(),
            AutomationError::Unknown(m) => join2("Unknown error: ", m.as_str()),
        }
    }
}

/// The line that names a remediation step.
pub open spec fn strategy_text(s: StrategyModel) -> Seq<char> {
    match s {
        StrategyModel::WaitAndRetry { delay_ms } => "Wait "@ + digits_of(delay_ms as nat)
            + "ms and retry"@,
        StrategyModel::ScrollIntoView => "Scroll element into view"@,
        StrategyModel::DismissOverlay => "Dismiss blocking overlay"@,
        StrategyModel::RefreshPage => "Refresh page"@,
        StrategyModel::NavigateBackForward => "Navigate back/forward"@,
        StrategyModel::ClearCookies => "Clear cookies"@,
        StrategyModel::CloseDialog => "Close dialog"@,
        StrategyModel::WaitForStable => "Wait for page to stabilize"@,
        StrategyModel::TryAlternateSelector { .. } => "Try alternate selectors"@,
        StrategyModel::ScrollAndSearch => "Scroll and search for element"@,
        StrategyModel::ClickViaJs => "Click via JavaScript"@,
        StrategyModel::FocusThenType => "Focus element then type"@,
        StrategyModel::RequestTakeover { reason } => "Request takeover: "@ + reason,
    }
}

impl RecoveryStrategy {
    /// The line that names this step.
    pub fn message(&self) -> (r: String)
        ensures
            r@ == strategy_text(self@),
    {
        match self {
            RecoveryStrategy::WaitAndRetry { delay_ms } => {
                let mut s = join2("Wait ", u64_text(*delay_ms).as_str());
                s.append("ms and retry");
                s
            },
            RecoveryStrategy::ScrollIntoView => "Scroll element into view".to_owned(),
            RecoveryStrategy::DismissOverlay => "Dismiss blocking overlay".to_owned(),
            RecoveryStrategy::RefreshPage => "Refresh page".to_owned(),
            RecoveryStrategy::NavigateBackForward => "Navigate back/forward".to_owned(),
            RecoveryStrategy::ClearCookies => "Clear cookies".to_owned(),
            RecoveryStrategy::CloseDialog => "Close dialog".to_owned(),
            RecoveryStrategy::WaitForStable => "Wait for page to stabilize".to_owned(),
            RecoveryStrategy::TryAlternateSelector { .. } => "Try alternate selectors".to_owned(),
            RecoveryStrategy::ScrollAndSearch => "Scroll and search for element".to_owned(),
            RecoveryStrategy::ClickViaJs => "Click via JavaScript".to_owned(),
            RecoveryStrategy::FocusThenType => "Focus element then type".to_owned(),
            RecoveryStrategy::RequestTakeover { reason } => join2(
                "Request takeover: ",
                reason.as_str(),
            ),
        }
    }
}

/// Settings of automatic correction.
#[derive(Debug, Clone, Copy, PartialEq, Eq, Structural)]
pub struct CorrectionConfig {
    pub enabled: bool,
    /// Attempts per failure.
    pub max_retries: u32,
    /// The pause before the first retry, in milliseconds.
    pub base_delay_ms: u64,
    pub exponential_backoff: bool,
    /// The time that all recovery together may take, in milliseconds.
    pub max_recovery_time_ms: u64,
    pub auto_dismiss_dialogs: bool,
    pub auto_scroll: bool,
    /// Hand over to a person once the plan is used up.
    pub takeover_on_failure: bool,
}

impl Default for CorrectionConfig {
    fn default() -> (r: CorrectionConfig)
        ensures
            r == (CorrectionConfig {
                enabled: true,
                max_retries: 3,
                base_delay_ms: 500,
                exponential_backoff: true,
                max_recovery_time_ms: 30000,
                auto_dismiss_dialogs: true,
                auto_scroll: true,
                takeover_on_failure: true,
            }),
    {
        CorrectionConfig {
            enabled: true,
            max_retries: 3,
            base_delay_ms: 500,
            exponential_backoff: true,
            max_recovery_time_ms: 30000,
            auto_dismiss_dialogs: true,
            auto_scroll: true,
            takeover_on_failure: true,
        }
    }
}

} // verus!
