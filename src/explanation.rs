//! Plain-language explanations of actions: what is done, why, and what
//! should follow.

use vstd::prelude::*;
use crate::text::{
    has_sub, has_prefix, lower_of, lowercase, contains_text, starts_with_text, text_eq, join2,
    opt_text, chars_of, vec_has_sub,
};

verus! {

/// What is known of the page and the task when an action is explained.
#[derive(Debug, Clone)]
pub struct ExplanationContext {
    pub current_url: Option<String>,
    pub current_title: Option<String>,
    pub previous_action: Option<String>,
    pub current_goal: Option<String>,
}

impl Default for ExplanationContext {
    fn default() -> (r: ExplanationContext)
        ensures
            r.current_url is None,
            r.current_title is None,
            r.previous_action is None,
            r.current_goal is None,
    {
        ExplanationContext {
            current_url: None,
            current_title: None,
            previous_action: None,
            current_goal: None,
        }
    }
}

/// An action with the reason for it and its expected outcome.
#[derive(Debug, Clone)]
pub struct ActionExplanation {
    pub action: String,
    pub reason: String,
    pub expected_outcome: String,
    /// The goal the action serves, when known.
    pub goal_context: Option<String>,
}

/// The mathematical value of an `ActionExplanation`.
pub struct ExplanationView {
    pub action: Seq<char>,
    pub reason: Seq<char>,
    pub expected: Seq<char>,
    pub goal: Option<Seq<char>>,
}

impl View for ActionExplanation {
    type V = ExplanationView;

    open spec fn view(&self) -> ExplanationView {
        ExplanationView {
            action: self.action@,
            reason: self.reason@,
            expected: self.expected_outcome@,
            goal: opt_text(self.goal_context),
        }
    }
}

/// The view of an optional string slice.
pub open spec fn opt_str(t: Option<&str>) -> Option<Seq<char>> {
    match t {
        Some(s) => Some(s@),
        None => None,
    }
}

/// The text, or `d` when there is none.
pub open spec fn or_text(t: Option<Seq<char>>, d: Seq<char>) -> Seq<char> {
    match t {
        Some(s) => s,
        None => d,
    }
}

fn or_str<'a>(t: Option<&'a str>, d: &'a str) -> (r: &'a str)
    ensures
        r@ == or_text(opt_str(t), d@),
{
    match t {
        Some(s) => s,
        None => d,
    }
}

/// `verb` followed by the target, or by `d` when there is none.
fn verb_with(verb: &str, target: Option<&str>, d: &str) -> (r: String)
    ensures
        r@ == verb@ + or_text(opt_str(target), d@),
{
    join2(verb, or_str(target, d))
}

fn pair(a: &str, b: &str) -> (r: (String, String))
    ensures
        r.0@ == a@,
        r.1@ == b@,
{
    (a.to_owned(), b.to_owned())
}

fn cue(l: &Vec<char>, p: &str) -> (r: bool)
    ensures
        r == has_sub(l@, p@),
{
    vec_has_sub(l, &chars_of(p))
}

/// Reason and expected outcome of clicking what `sel` names.
pub open spec fn click_reasons(sel: Seq<char>) -> (Seq<char>, Seq<char>) {
    let l = lower_of(sel);
    if has_sub(l, "submit"@) || has_sub(l, "login"@) || has_sub(l, "sign"@) {
        (
            "Submitting the form by clicking the submit button"@,
            "Form will be submitted and page may navigate"@,
        )
    } else if has_sub(l, "button"@) || has_sub(l, "btn"@) {
        ("Clicking a button to trigger an action"@, "Button action will be executed"@)
    } else if has_sub(l, "link"@) || has_prefix(sel, "a["@) || has_prefix(sel, "a."@) {
        ("Clicking a link to navigate to another page"@, "Page will navigate to the link destination"@)
    } else if has_sub(l, "menu"@) || has_sub(l, "nav"@) {
        ("Opening or selecting from a menu"@, "Menu will open or selection will be made"@)
    } else if has_sub(l, "close"@) || has_sub(l, "dismiss"@) || has_sub(l, "x"@) {
        ("Closing a dialog, popup, or notification"@, "Element will close or be dismissed"@)
    } else if has_sub(l, "checkbox"@) || has_sub(sel, "[type=checkbox]"@) {
        ("Toggling a checkbox option"@, "Checkbox state will change"@)
    } else if has_sub(l, "radio"@) || has_sub(sel, "[type=radio]"@) {
        ("Selecting a radio button option"@, "Radio option will be selected"@)
    } else if has_sub(l, "tab"@) {
        ("Switching to a different tab or section"@, "Tab content will be displayed"@)
    } else if has_sub(l, "expand"@) || has_sub(l, "collapse"@) || has_sub(l, "accordion"@) {
        ("Expanding or collapsing a section"@, "Section visibility will toggle"@)
    } else if has_prefix(sel, "("@) && has_sub(sel, ","@) {
        ("Clicking at specific screen coordinates"@, "Click event will be triggered at location"@)
    } else {
        ("Clicking on element matching '"@ + sel + "'"@, "Element will receive click event"@)
    }
}

fn click_reasons_of(sel: &str) -> (r: (String, String))
    ensures
        r.0@ == click_reasons(sel@).0,
        r.1@ == click_reasons(sel@).1,
{
    let l = chars_of(lowercase(sel).as_str());
    if cue(&l, "submit") || cue(&l, "login") || cue(&l, "sign") {
        pair(
            "Submitting the form by clicking the submit button",
            "Form will be submitted and page may navigate",
        )
    } else if cue(&l, "button") || cue(&l, "btn") {
        pair("Clicking a button to trigger an action", "Button action will be executed")
    } else if cue(&l, "link") || starts_with_text(sel, "a[") || starts_with_text(sel, "a.") {
        pair(
            "Clicking a link to navigate to another page",
            "Page will navigate to the link destination",
        )
    } else if cue(&l, "menu") || cue(&l, "nav") {
        pair("Opening or selecting from a menu", "Menu will open or selection will be made")
    } else if cue(&l, "close") || cue(&l, "dismiss") || cue(&l, "x") {
        pair("Closing a dialog, popup, or notification", "Element will close or be dismissed")
    } else if cue(&l, "checkbox") || contains_text(sel, "[type=checkbox]") {
        pair("Toggling a checkbox option", "Checkbox state will change")
    } else if cue(&l, "radio") || contains_text(sel, "[type=radio]") {
        pair("Selecting a radio button option", "Radio option will be selected")
    } else if cue(&l, "tab") {
        pair("Switching to a different tab or section", "Tab content will be displayed")
    } else if cue(&l, "expand") || cue(&l, "collapse") || cue(&l, "accordion") {
        pair("Expanding or collapsing a section", "Section visibility will toggle")
    } else if starts_with_text(sel, "(") && contains_text(sel, ",") {
        pair("Clicking at specific screen coordinates", "Click event will be triggered at location")
    } else {
        let mut reason = join2("Clicking on element matching '", sel);
        reason.append("'");
        (reason, "Element will receive click event".to_owned())
    }
}

/// The explanation of `click`.
pub open spec fn explain_click_spec(target: Option<Seq<char>>, context: ExplanationContext) -> ExplanationView {
    ExplanationView {
        action: "click "@ + or_text(target, "element"@),
        reason: match target {
            Some(sel) => click_reasons(sel).0,
            None => "Clicking on specified element"@,
        },
        expected: match target {
            Some(sel) => click_reasons(sel).1,
            None => "Click event will be triggered"@,
        },
        goal: opt_text(context.current_goal),
    }
}

fn explain_click(target: Option<&str>, context: &ExplanationContext) -> (r: ActionExplanation)
    ensures
        r@ == explain_click_spec(opt_str(target), *context),
{
    let (reason, expected) = match target {
        Some(sel) => click_reasons_of(sel),
        None => pair("Clicking on specified element", "Click event will be triggered"),
    };
    ActionExplanation {
        action: verb_with("click ", target, "element"),
        reason,
        expected_outcome: expected,
        goal_context: context.current_goal.clone(),
    }
}

/// Reason and expected outcome of typing into what `sel` names.
pub open spec fn type_reasons(sel: Seq<char>) -> (Seq<char>, Seq<char>) {
    let l = lower_of(sel);
    if has_sub(l, "search"@) {
        ("Entering search query into search field"@, "Search results will be populated"@)
    } else if has_sub(l, "email"@) {
        ("Entering email address"@, "Email field will be filled"@)
    } else if has_sub(l, "password"@) {
        ("Entering password (credentials masked)"@, "Password field will be filled"@)
    } else if has_sub(l, "username"@) || has_sub(l, "user"@) {
        ("Entering username"@, "Username field will be filled"@)
    } else if has_sub(l, "comment"@) || has_sub(l, "message"@) || has_sub(l, "textarea"@) {
        ("Entering text content"@, "Text area will be filled"@)
    } else if has_sub(l, "address"@) {
        ("Entering address information"@, "Address field will be filled"@)
    } else if sel == "focused"@ {
        ("Typing into currently focused element"@, "Focused element will receive text"@)
    } else {
        ("Typing text into '"@ + sel + "'"@, "Text will be entered into the field"@)
    }
}

fn type_reasons_of(sel: &str) -> (r: (String, String))
    ensures
        r.0@ == type_reasons(sel@).0,
        r.1@ == type_reasons(sel@).1,
{
    let l = chars_of(lowercase(sel).as_str());
    if cue(&l, "search") {
        pair("Entering search query into search field", "Search results will be populated")
    } else if cue(&l, "email") {
        pair("Entering email address", "Email field will be filled")
    } else if cue(&l, "password") {
        pair("Entering password (credentials masked)", "Password field will be filled")
    } else if cue(&l, "username") || cue(&l, "user") {
        pair("Entering username", "Username field will be filled")
    } else if cue(&l, "comment") || cue(&l, "message") || cue(&l, "textarea") {
        pair("Entering text content", "Text area will be filled")
    } else if cue(&l, "address") {
        pair("Entering address information", "Address field will be filled")
    } else if text_eq(sel, "focused") {
        pair("Typing into currently focused element", "Focused element will receive text")
    } else {
        let mut reason = join2("Typing text into '", sel);
        reason.append("'");
        (reason, "Text will be entered into the field".to_owned())
    }
}

/// The explanation of `type`.
pub open spec fn explain_type_spec(target: Option<Seq<char>>, context: ExplanationContext) -> ExplanationView {
    ExplanationView {
        action: "type "@ + or_text(target, "field"@),
        reason: match target {
            Some(sel) => type_reasons(sel).0,
            None => "Typing text into field"@,
        },
        expected: match target {
            Some(sel) => type_reasons(sel).1,
            None => "Field will be filled with text"@,
        },
        goal: opt_text(context.current_goal),
    }
}

fn explain_type(target: Option<&str>, context: &ExplanationContext) -> (r: ActionExplanation)
    ensures
        r@ == explain_type_spec(opt_str(target), *context),
{
    let (reason, expected) = match target {
        Some(sel) => type_reasons_of(sel),
        None => pair("Typing text into field", "Field will be filled with text"),
    };
    ActionExplanation {
        action: verb_with("type ", target, "field"),
        reason,
        expected_outcome: expected,
        goal_context: context.current_goal.clone(),
    }
}

/// Reason and expected outcome of pressing `key`.
pub open spec fn key_reasons(key: Seq<char>) -> (Seq<char>, Seq<char>) {
    let l = lower_of(key);
    if l == "enter"@ || l == "return"@ {
        ("Pressing Enter to submit or confirm"@, "Form submission or action confirmation"@)
    } else if l == "tab"@ {
        ("Pressing Tab to move to next field"@, "Focus will move to next element"@)
    } else if l == "escape"@ || l == "esc"@ {
        ("Pressing Escape to cancel or close"@, "Dialog or action will be cancelled"@)
    } else if has_sub(l, "arrow"@) || has_sub(l, "up"@) || has_sub(l, "down"@) || has_sub(
        l,
        "left"@,
    ) || has_sub(l, "right"@) {
        ("Using arrow keys for navigation"@, "Selection or cursor will move"@)
    } else if has_sub(l, "cmd+"@) || has_sub(l, "ctrl+"@) {
        ("Executing keyboard shortcut: "@ + key, "Shortcut action will be triggered"@)
    } else if l == "backspace"@ || l == "delete"@ {
        ("Pressing delete key"@, "Selected content will be deleted"@)
    } else if l == "space"@ {
        ("Pressing Space"@, "Space character or button activation"@)
    } else {
        ("Pressing key: "@ + key, "Key event will be dispatched"@)
    }
}

fn key_reasons_of(key: &str) -> (r: (String, String))
    ensures
        r.0@ == key_reasons(key@).0,
        r.1@ == key_reasons(key@).1,
{
    let lower = lowercase(key);
    let k = lower.as_str();
    let l = chars_of(k);
    if text_eq(k, "enter") || text_eq(k, "return") {
        pair("Pressing Enter to submit or confirm", "Form submission or action confirmation")
    } else if text_eq(k, "tab") {
        pair("Pressing Tab to move to next field", "Focus will move to next element")
    } else if text_eq(k, "escape") || text_eq(k, "esc") {
        pair("Pressing Escape to cancel or close", "Dialog or action will be cancelled")
    } else if cue(&l, "arrow") || cue(&l, "up") || cue(&l, "down") || cue(&l, "left") || cue(
        &l,
        "right",
    ) {
        pair("Using arrow keys for navigation", "Selection or cursor will move")
    } else if cue(&l, "cmd+") || cue(&l, "ctrl+") {
        (join2("Executing keyboard shortcut: ", key), "Shortcut action will be triggered".to_owned())
    } else if text_eq(k, "backspace") || text_eq(k, "delete") {
        pair("Pressing delete key", "Selected content will be deleted")
    } else if text_eq(k, "space") {
        pair("Pressing Space", "Space character or button activation")
    } else {
        (join2("Pressing key: ", key), "Key event will be dispatched".to_owned())
    }
}

/// The explanation of `key`.
pub open spec fn explain_key_spec(target: Option<Seq<char>>) -> ExplanationView {
    let key = or_text(target, "key"@);
    ExplanationView {
        action: "key "@ + key,
        reason: key_reasons(key).0,
        expected: key_reasons(key).1,
        goal: None,
    }
}

fn explain_key(target: Option<&str>) -> (r: ActionExplanation)
    ensures
        r@ == explain_key_spec(opt_str(target)),
{
    let key = or_str(target, "key");
    let (reason, expected) = key_reasons_of(key);
    ActionExplanation {
        action: join2("key ", key),
        reason,
        expected_outcome: expected,
        goal_context: None,
    }
}

/// The explanation of `hold_key`.
pub open spec fn explain_hold_key_spec(target: Option<Seq<char>>) -> ExplanationView {
    let key = or_text(target, "key"@);
    ExplanationView {
        action: "hold_key "@ + key,
        reason: "Holding down "@ + key + " key for extended action"@,
        expected: "Key-hold-dependent action will be triggered"@,
        goal: None,
    }
}

fn explain_hold_key(target: Option<&str>) -> (r: ActionExplanation)
    ensures
        r@ == explain_hold_key_spec(opt_str(target)),
{
    let key = or_str(target, "key");
    let mut reason = join2("Holding down ", key);
    reason.append(" key for extended action");
    ActionExplanation {
        action: join2("hold_key ", key),
        reason,
        expected_outcome: "Key-hold-dependent action will be triggered".to_owned(),
        goal_context: None,
    }
}

/// The explanation of `navigate`: the reason names the page being left, when known.
pub open spec fn explain_navigate_spec(target: Option<Seq<char>>, context: ExplanationContext) -> ExplanationView {
    ExplanationView {
        action: "navigate "@ + or_text(target, "URL"@),
        reason: match context.current_url {
            Some(current) => "Navigating from '"@ + current@ + "' to new URL"@,
            None => "Navigating to URL"@,
        },
        expected: "Page will load new URL"@,
        goal: opt_text(context.current_goal),
    }
}

fn explain_navigate(target: Option<&str>, context: &ExplanationContext) -> (r: ActionExplanation)
    ensures
        r@ == explain_navigate_spec(opt_str(target), *context),
{
    let reason = match &context.current_url {
        Some(current) => {
            let mut s = join2("Navigating from '", current.as_str());
            s.append("' to new URL");
            s
        },
        None => "Navigating to URL".to_owned(),
    };
    ActionExplanation {
        action: verb_with("navigate ", target, "URL"),
        reason,
        expected_outcome: "Page will load new URL".to_owned(),
        goal_context: context.current_goal.clone(),
    }
}

/// The reason for hovering over what `sel` names.
pub open spec fn hover_reason(sel: Seq<char>) -> Seq<char> {
    let l = lower_of(sel);
    if has_sub(l, "menu"@) || has_sub(l, "dropdown"@) {
        "Hovering to reveal dropdown menu"@
    } else if has_sub(l, "tooltip"@) {
        "Hovering to display tooltip"@
    } else {
        "Hovering over '"@ + sel + "' to trigger hover state"@
    }
}

/// The explanation of `hover`.
pub open spec fn explain_hover_spec(target: Option<Seq<char>>) -> ExplanationView {
    ExplanationView {
        action: "hover "@ + or_text(target, "element"@),
        reason: match target {
            Some(sel) => hover_reason(sel),
            None => "Hovering over element"@,
        },
        expected: "Hover effects will be triggered (menus, tooltips, styles)"@,
        goal: None,
    }
}

fn explain_hover(target: Option<&str>) -> (r: ActionExplanation)
    ensures
        r@ == explain_hover_spec(opt_str(target)),
{
    let reason = match target {
        Some(sel) => {
            let l = chars_of(lowercase(sel).as_str());
            if cue(&l, "menu") || cue(&l, "dropdown") {
                "Hovering to reveal dropdown menu".to_owned()
            } else if cue(&l, "tooltip") {
                "Hovering to display tooltip".to_owned()
            } else {
                let mut s = join2("Hovering over '", sel);
                s.append("' to trigger hover state");
                s
            }
        },
        None => "Hovering over element".to_owned(),
    };
    ActionExplanation {
        action: verb_with("hover ", target, "element"),
        reason,
        expected_outcome: "Hover effects will be triggered (menus, tooltips, styles)".to_owned(),
        goal_context: None,
    }
}

/// Reason and expected outcome of waiting on `sel`.
pub open spec fn wait_reasons(sel: Seq<char>) -> (Seq<char>, Seq<char>) {
    if has_sub(sel, "gone"@) {
        ("Waiting for element to disappear (e.g., loading spinner)"@, "Element will no longer be in DOM"@)
    } else if has_sub(sel, "text"@) {
        ("Waiting for specific text to appear on page"@, "Text will be present in page content"@)
    } else {
        ("Waiting for element '"@ + sel + "' to appear"@, "Element will be present in DOM"@)
    }
}

/// The explanation of `wait`.
pub open spec fn explain_wait_spec(target: Option<Seq<char>>) -> ExplanationView {
    ExplanationView {
        action: "wait "@ + or_text(target, "condition"@),
        reason: match target {
            Some(sel) => wait_reasons(sel).0,
            None => "Waiting for condition to be met"@,
        },
        expected: match target {
            Some(sel) => wait_reasons(sel).1,
            None => "Condition will be satisfied"@,
        },
        goal: None,
    }
}

fn explain_wait(target: Option<&str>) -> (r: ActionExplanation)
    ensures
        r@ == explain_wait_spec(opt_str(target)),
{
    let (reason, expected) = match target {
        Some(sel) => if contains_text(sel, "gone") {
            pair(
                "Waiting for element to disappear (e.g., loading spinner)",
                "Element will no longer be in DOM",
            )
        } else if contains_text(sel, "text") {
            pair("Waiting for specific text to appear on page", "Text will be present in page content")
        } else {
            let mut s = join2("Waiting for element '", sel);
            s.append("' to appear");
            (s, "Element will be present in DOM".to_owned())
        },
        None => pair("Waiting for condition to be met", "Condition will be satisfied"),
    };
    ActionExplanation {
        action: verb_with("wait ", target, "condition"),
        reason,
        expected_outcome: expected,
        goal_context: None,
    }
}

/// The explanation of `dialog`.
pub open spec fn explain_dialog_spec(target: Option<Seq<char>>) -> ExplanationView {
    let answer = or_text(target, "accept"@);
    ExplanationView {
        action: "dialog "@ + answer,
        reason: "Responding to browser dialog ("@ + answer + ")"@,
        expected: "Dialog will be closed"@,
        goal: None,
    }
}

fn explain_dialog(target: Option<&str>) -> (r: ActionExplanation)
    ensures
        r@ == explain_dialog_spec(opt_str(target)),
{
    let answer = or_str(target, "accept");
    let mut reason = join2("Responding to browser dialog (", answer);
    reason.append(")");
    ActionExplanation {
        action: join2("dialog ", answer),
        reason,
        expected_outcome: "Dialog will be closed".to_owned(),
        goal_context: None,
    }
}

/// The explanation of `screenshot`: of an element when one is named, else of
/// the viewport.
pub open spec fn explain_screenshot_spec(target: Option<Seq<char>>) -> ExplanationView {
    ExplanationView {
        action: "screenshot "@ + or_text(target, ""@),
        reason: "Capturing "@ + (if target is Some {
            "element"@
        } else {
            "viewport"@
        }) + " screenshot for verification"@,
        expected: "Screenshot image will be saved"@,
        goal: None,
    }
}

fn explain_screenshot(target: Option<&str>) -> (r: ActionExplanation)
    ensures
        r@ == explain_screenshot_spec(opt_str(target)),
{
    let scope = if target.is_some() {
        "element"
    } else {
        "viewport"
    };
    let mut reason = join2("Capturing ", scope);
    reason.append(" screenshot for verification");
    ActionExplanation {
        action: verb_with("screenshot ", target, ""),
        reason,
        expected_outcome: "Screenshot image will be saved".to_owned(),
        goal_context: None,
    }
}

/// The explanation of `scroll`: by an offset when the target holds a comma,
/// else to an element.
pub open spec fn explain_scroll_spec(target: Option<Seq<char>>) -> ExplanationView {
    ExplanationView {
        action: "scroll "@ + or_text(target, "page"@),
        reason: match target {
            Some(sel) => if has_sub(sel, ","@) {
                "Scrolling by "@ + sel + " pixels"@
            } else {
                "Scrolling to element '"@ + sel + "'"@
            },
            None => "Scrolling page"@,
        },
        expected: "Page scroll position will change"@,
        goal: None,
    }
}

fn explain_scroll(target: Option<&str>) -> (r: ActionExplanation)
    ensures
        r@ == explain_scroll_spec(opt_str(target)),
{
    let reason = match target {
        Some(sel) => if contains_text(sel, ",") {
            let mut s = join2("Scrolling by ", sel);
            s.append(" pixels");
            s
        } else {
            let mut s = join2("Scrolling to element '", sel);
            s.append("'");
            s
        },
        None => "Scrolling page".to_owned(),
    };
    ActionExplanation {
        action: verb_with("scroll ", target, "page"),
        reason,
        expected_outcome: "Page scroll position will change".to_owned(),
        goal_context: None,
    }
}

/// The explanation of an action without a dedicated one.
pub open spec fn other_action_spec(action: Seq<char>, context: ExplanationContext) -> ExplanationView {
    ExplanationView {
        action,
        reason: "Performing "@ + action + " action"@,
        expected: "Action will be executed"@,
        goal: opt_text(context.current_goal),
    }
}

fn other_action(action: &str, context: &ExplanationContext) -> (r: ActionExplanation)
    ensures
        r@ == other_action_spec(action@, *context),
{
    let mut reason = join2("Performing ", action);
    reason.append(" action");
    ActionExplanation {
        action: action.to_owned(),
        reason,
        expected_outcome: "Action will be executed".to_owned(),
        goal_context: context.current_goal.clone(),
    }
}

/// The explanation of `triple_click`.
pub open spec fn explain_triple_click_spec(target: Option<Seq<char>>) -> ExplanationView {
    ExplanationView {
        action: "triple_click "@ + or_text(target, "element"@),
        reason: "Triple-clicking to select an entire paragraph or text block"@,
        expected: "Text will be selected for copying or manipulation"@,
        goal: None,
    }
}

fn explain_triple_click(target: Option<&str>) -> (r: ActionExplanation)
    ensures
        r@ == explain_triple_click_spec(opt_str(target)),
{
    ActionExplanation {
        action: verb_with("triple_click ", target, "element"),
        reason: "Triple-clicking to select an entire paragraph or text block".to_owned(),
        expected_outcome: "Text will be selected for copying or manipulation".to_owned(),
        goal_context: None,
    }
}

/// The explanation of `mouse_move`.
pub open spec fn explain_mouse_move_spec(target: Option<Seq<char>>) -> ExplanationView {
    ExplanationView {
        action: "mouse_move "@ + or_text(target, "coords"@),
        reason: "Moving cursor to specific position"@,
        expected: "Cursor will be at new position"@,
        goal: None,
    }
}

fn explain_mouse_move(target: Option<&str>) -> (r: ActionExplanation)
    ensures
        r@ == explain_mouse_move_spec(opt_str(target)),
{
    ActionExplanation {
        action: verb_with("mouse_move ", target, "coords"),
        reason: "Moving cursor to specific position".to_owned(),
        expected_outcome: "Cursor will be at new position".to_owned(),
        goal_context: None,
    }
}

/// The explanation of `mouse_down`.
pub open spec fn explain_mouse_down_spec(target: Option<Seq<char>>) -> ExplanationView {
    ExplanationView {
        action: "mouse_down "@ + or_text(target, "left"@),
        reason: "Pressing mouse button down (for drag operations)"@,
        expected: "Mouse button will be held down"@,
        goal: None,
    }
}

fn explain_mouse_down(target: Option<&str>) -> (r: ActionExplanation)
    ensures
        r@ == explain_mouse_down_spec(opt_str(target)),
{
    ActionExplanation {
        action: verb_with("mouse_down ", target, "left"),
        reason: "Pressing mouse button down (for drag operations)".to_owned(),
        expected_outcome: "Mouse button will be held down".to_owned(),
        goal_context: None,
    }
}

/// The explanation of `mouse_up`.
pub open spec fn explain_mouse_up_spec(target: Option<Seq<char>>) -> ExplanationView {
    ExplanationView {
        action: "mouse_up "@ + or_text(target, "left"@),
        reason: "Releasing mouse button (completing drag)"@,
        expected: "Mouse button will be released"@,
        goal: None,
    }
}

fn explain_mouse_up(target: Option<&str>) -> (r: ActionExplanation)
    ensures
        r@ == explain_mouse_up_spec(opt_str(target)),
{
    ActionExplanation {
        action: verb_with("mouse_up ", target, "left"),
        reason: "Releasing mouse button (completing drag)".to_owned(),
        expected_outcome: "Mouse button will be released".to_owned(),
        goal_context: None,
    }
}

/// The explanation of `drag`.
pub open spec fn explain_drag_spec(target: Option<Seq<char>>) -> ExplanationView {
    ExplanationView {
        action: "drag "@ + or_text(target, "element"@),
        reason: "Dragging element to new position"@,
        expected: "Element will be moved or dropped"@,
        goal: None,
    }
}

fn explain_drag(target: Option<&str>) -> (r: ActionExplanation)
    ensures
        r@ == explain_drag_spec(opt_str(target)),
{
    ActionExplanation {
        action: verb_with("drag ", target, "element"),
        reason: "Dragging element to new position".to_owned(),
        expected_outcome: "Element will be moved or dropped".to_owned(),
        goal_context: None,
    }
}

/// The explanation of `wait_duration`.
pub open spec fn explain_wait_duration_spec(target: Option<Seq<char>>) -> ExplanationView {
    ExplanationView {
        action: "wait_duration "@ + or_text(target, "some time"@),
        reason: "Pausing execution for specified time"@,
        expected: "Script will resume after delay"@,
        goal: None,
    }
}

fn explain_wait_duration(target: Option<&str>) -> (r: ActionExplanation)
    ensures
        r@ == explain_wait_duration_spec(opt_str(target)),
{
    ActionExplanation {
        action: verb_with("wait_duration ", target, "some time"),
        reason: "Pausing execution for specified time".to_owned(),
        expected_outcome: "Script will resume after delay".to_owned(),
        goal_context: None,
    }
}

/// The explanation of `select`.
pub open spec fn explain_select_spec(target: Option<Seq<char>>) -> ExplanationView {
    ExplanationView {
        action: "select "@ + or_text(target, "option"@),
        reason: "Selecting an option from dropdown menu"@,
        expected: "Dropdown value will be set"@,
        goal: None,
    }
}

fn explain_select(target: Option<&str>) -> (r: ActionExplanation)
    ensures
        r@ == explain_select_spec(opt_str(target)),
{
    ActionExplanation {
        action: verb_with("select ", target, "option"),
        reason: "Selecting an option from dropdown menu".to_owned(),
        expected_outcome: "Dropdown value will be set".to_owned(),
        goal_context: None,
    }
}

/// The explanation of `upload`.
pub open spec fn explain_upload_spec(target: Option<Seq<char>>) -> ExplanationView {
    ExplanationView {
        action: "upload "@ + or_text(target, "file"@),
        reason: "Uploading file(s) to file input"@,
        expected: "Files will be attached for submission"@,
        goal: None,
    }
}

fn explain_upload(target: Option<&str>) -> (r: ActionExplanation)
    ensures
        r@ == explain_upload_spec(opt_str(target)),
{
    ActionExplanation {
        action: verb_with("upload ", target, "file"),
        reason: "Uploading file(s) to file input".to_owned(),
        expected_outcome: "Files will be attached for submission".to_owned(),
        goal_context: None,
    }
}

/// The explanation of `screenshot_region`.
pub open spec fn explain_screenshot_region_spec(target: Option<Seq<char>>) -> ExplanationView {
    ExplanationView {
        action: "screenshot_region "@ + or_text(target, "region"@),
        reason: "Capturing specific region of the screen"@,
        expected: "Cropped screenshot will be saved"@,
        goal: None,
    }
}

fn explain_screenshot_region(target: Option<&str>) -> (r: ActionExplanation)
    ensures
        r@ == explain_screenshot_region_spec(opt_str(target)),
{
    ActionExplanation {
        action: verb_with("screenshot_region ", target, "region"),
        reason: "Capturing specific region of the screen".to_owned(),
        expected_outcome: "Cropped screenshot will be saved".to_owned(),
        goal_context: None,
    }
}

/// The explanation of `resize`.
pub open spec fn explain_resize_spec(target: Option<Seq<char>>) -> ExplanationView {
    ExplanationView {
        action: "resize "@ + or_text(target, "viewport"@),
        reason: "Resizing browser viewport (for responsive testing)"@,
        expected: "Viewport dimensions will change"@,
        goal: None,
    }
}

fn explain_resize(target: Option<&str>) -> (r: ActionExplanation)
    ensures
        r@ == explain_resize_spec(opt_str(target)),
{
    ActionExplanation {
        action: verb_with("resize ", target, "viewport"),
        reason: "Resizing browser viewport (for responsive testing)".to_owned(),
        expected_outcome: "Viewport dimensions will change".to_owned(),
        goal_context: None,
    }
}

/// The explanation of `back`.
pub open spec fn explain_back_spec(context: ExplanationContext) -> ExplanationView {
    ExplanationView {
        action: "back"@,
        reason: "Going back to previous page in browser history"@,
        expected: "Previous page will be loaded"@,
        goal: opt_text(context.current_goal),
    }
}

fn explain_back(context: &ExplanationContext) -> (r: ActionExplanation)
    ensures
        r@ == explain_back_spec(*context),
{
    ActionExplanation {
        action: "back".to_owned(),
        reason: "Going back to previous page in browser history".to_owned(),
        expected_outcome: "Previous page will be loaded".to_owned(),
        goal_context: context.current_goal.clone(),
    }
}

/// The explanation of `refresh`.
pub open spec fn explain_refresh_spec(context: ExplanationContext) -> ExplanationView {
    ExplanationView {
        action: "refresh"@,
        reason: "Refreshing the current page to get updated content"@,
        expected: "Page will reload with fresh data"@,
        goal: opt_text(context.current_goal),
    }
}

fn explain_refresh(context: &ExplanationContext) -> (r: ActionExplanation)
    ensures
        r@ == explain_refresh_spec(*context),
{
    ActionExplanation {
        action: "refresh".to_owned(),
        reason: "Refreshing the current page to get updated content".to_owned(),
        expected_outcome: "Page will reload with fresh data".to_owned(),
        goal_context: context.current_goal.clone(),
    }
}

/// The explanation of `pdf`.
pub open spec fn explain_pdf_spec(context: ExplanationContext) -> ExplanationView {
    ExplanationView {
        action: "pdf"@,
        reason: "Exporting page as PDF document"@,
        expected: "PDF file will be generated"@,
        goal: None,
    }
}

fn explain_pdf(context: &ExplanationContext) -> (r: ActionExplanation)
    ensures
        r@ == explain_pdf_spec(*context),
{
    ActionExplanation {
        action: "pdf".to_owned(),
        reason: "Exporting page as PDF document".to_owned(),
        expected_outcome: "PDF file will be generated".to_owned(),
        goal_context: None,
    }
}

/// The explanation of `cursor_position`.
pub open spec fn explain_cursor_position_spec(context: ExplanationContext) -> ExplanationView {
    ExplanationView {
        action: "cursor_position"@,
        reason: "Getting current cursor coordinates"@,
        expected: "Cursor position will be returned"@,
        goal: None,
    }
}

fn explain_cursor_position(context: &ExplanationContext) -> (r: ActionExplanation)
    ensures
        r@ == explain_cursor_position_spec(*context),
{
    ActionExplanation {
        action: "cursor_position".to_owned(),
        reason: "Getting current cursor coordinates".to_owned(),
        expected_outcome: "Cursor position will be returned".to_owned(),
        goal_context: None,
    }
}

/// The explanation of an action on a target, in a context.
pub open spec fn explain_spec(
    action: Seq<char>,
    target: Option<Seq<char>>,
    context: ExplanationContext,
) -> ExplanationView {
    if action == "click"@ {
        explain_click_spec(target, context)
    } else if action == "triple_click"@ {
        explain_triple_click_spec(target)
    } else if action == "type"@ {
        explain_type_spec(target, context)
    } else if action == "key"@ {
        explain_key_spec(target)
    } else if action == "hold_key"@ {
        explain_hold_key_spec(target)
    } else if action == "navigate"@ {
        explain_navigate_spec(target, context)
    } else if action == "back"@ {
        explain_back_spec(context)
    } else if action == "refresh"@ {
        explain_refresh_spec(context)
    } else if action == "hover"@ {
        explain_hover_spec(target)
    } else if action == "mouse_move"@ {
        explain_mouse_move_spec(target)
    } else if action == "mouse_down"@ {
        explain_mouse_down_spec(target)
    } else if action == "mouse_up"@ {
        explain_mouse_up_spec(target)
    } else if action == "drag"@ {
        explain_drag_spec(target)
    } else if action == "wait"@ {
        explain_wait_spec(target)
    } else if action == "wait_duration"@ {
        explain_wait_duration_spec(target)
    } else if action == "select"@ {
        explain_select_spec(target)
    } else if action == "upload"@ {
        explain_upload_spec(target)
    } else if action == "dialog"@ {
        explain_dialog_spec(target)
    } else if action == "screenshot"@ {
        explain_screenshot_spec(target)
    } else if action == "screenshot_region"@ {
        explain_screenshot_region_spec(target)
    } else if action == "pdf"@ {
        explain_pdf_spec(context)
    } else if action == "scroll"@ {
        explain_scroll_spec(target)
    } else if action == "resize"@ {
        explain_resize_spec(target)
    } else if action == "cursor_position"@ {
        explain_cursor_position_spec(context)
    } else {
        other_action_spec(action, context)
    }
}

/// Explains an action: what is done, why, and what should follow.
pub fn explain_action(action: &str, target: Option<&str>, context: &ExplanationContext) -> (r:
    ActionExplanation)
    ensures
        r@ == explain_spec(action@, opt_str(target), *context),
{
    if text_eq(action, "click") {
        explain_click(target, context)
    } else if text_eq(action, "triple_click") {
        explain_triple_click(target)
    } else if text_eq(action, "type") {
        explain_type(target, context)
    } else if text_eq(action, "key") {
        explain_key(target)
    } else if text_eq(action, "hold_key") {
        explain_hold_key(target)
    } else if text_eq(action, "navigate") {
        explain_navigate(target, context)
    } else if text_eq(action, "back") {
        explain_back(context)
    } else if text_eq(action, "refresh") {
        explain_refresh(context)
    } else if text_eq(action, "hover") {
        explain_hover(target)
    } else if text_eq(action, "mouse_move") {
        explain_mouse_move(target)
    } else if text_eq(action, "mouse_down") {
        explain_mouse_down(target)
    } else if text_eq(action, "mouse_up") {
        explain_mouse_up(target)
    } else if text_eq(action, "drag") {
        explain_drag(target)
    } else if text_eq(action, "wait") {
        explain_wait(target)
    } else if text_eq(action, "wait_duration") {
        explain_wait_duration(target)
    } else if text_eq(action, "select") {
        explain_select(target)
    } else if text_eq(action, "upload") {
        explain_upload(target)
    } else if text_eq(action, "dialog") {
        explain_dialog(target)
    } else if text_eq(action, "screenshot") {
        explain_screenshot(target)
    } else if text_eq(action, "screenshot_region") {
        explain_screenshot_region(target)
    } else if text_eq(action, "pdf") {
        explain_pdf(context)
    } else if text_eq(action, "scroll") {
        explain_scroll(target)
    } else if text_eq(action, "resize") {
        explain_resize(target)
    } else if text_eq(action, "cursor_position") {
        explain_cursor_position(context)
    } else {
        other_action(action, context)
    }
}

/// The explanation, one labelled line per part; the goal only when known.
pub open spec fn explanation_text(e: ExplanationView) -> Seq<char> {
    "Action: "@ + e.action + "\n"@ + "Reason: "@ + e.reason + "\n"@ + "Expected: "@ + e.expected
        + "\n"@ + match e.goal {
        Some(g) => "Goal: "@ + g + "\n"@,
        None => Seq::empty(),
    }
}

/// Renders an explanation for people.
pub fn format_explanation(explanation: &ActionExplanation) -> (r: String)
    ensures
        r@ == explanation_text(explanation@),
{
    let mut out = join2("Action: ", explanation.action.as_str());
    out.append("\n");
    out.append("Reason: ");
    out.append(explanation.reason.as_str());
    out.append("\n");
    out.append("Expected: ");
    out.append(explanation.expected_outcome.as_str());
    out.append("\n");
    match &explanation.goal_context {
        Some(g) => {
            out.append("Goal: ");
            out.append(g.as_str());
            out.append("\n");
        },
        None => {},
    }
    assert(out@ =~= explanation_text(explanation@));
    out
}

} // verus!
