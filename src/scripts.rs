//! The scripts that carry out the primitive actions on the page. Each
//! action is one evaluation, so that nothing runs between finding an element
//! and acting on it; values from the caller are escaped before they are
//! placed inside the script's string literals.

use vstd::prelude::*;
use crate::text::{escape_js, js_escaped, int_text, i64_text, escape_quotes, quotes_escaped};

verus! {

/// Fixed text 0 of the script of `click_script`.
pub const CLICK_SCRIPT_0: &'static str = r#"
            (function() {
                const els = document.querySelectorAll('"#;
/// Fixed text 1 of the script of `click_script`.
pub const CLICK_SCRIPT_1: &'static str = r#"');
                if (els.length === 0) return { found: false, count: 0 };
                const idx = "#;
/// Fixed text 2 of the script of `click_script`.
pub const CLICK_SCRIPT_2: &'static str = " < 0 ? els.length + ";
/// Fixed text 3 of the script of `click_script`.
pub const CLICK_SCRIPT_3: &'static str = " : ";
/// Fixed text 4 of the script of `click_script`.
pub const CLICK_SCRIPT_4: &'static str = r#";
                if (idx < 0 || idx >= els.length) return { found: false, count: els.length, index: idx };
                const el = els[idx];
                el.scrollIntoView({ block: 'center' });
                el.click();
                return { found: true };
            })()
            "#;

/// The script that picks match `nth` (negative: from the end) of `selector`, scrolls it into view and clicks it, in one evaluation; reports `found`, `count` and the resolved `index`.
pub open spec fn click_script_text(selector: Seq<char>, nth: int) -> Seq<char> {
    CLICK_SCRIPT_0@ + js_escaped(selector, false) + CLICK_SCRIPT_1@ + int_text(nth) + CLICK_SCRIPT_2@ + int_text(nth) + CLICK_SCRIPT_3@ + int_text(nth) + CLICK_SCRIPT_4@
}

/// The script that picks match `nth` (negative: from the end) of `selector`, scrolls it into view and clicks it, in one evaluation; reports `found`, `count` and the resolved `index`.
pub fn click_script(selector: &str, nth: i32) -> (r: String)
    ensures
        r@ == click_script_text(selector@, nth as int),
{
    let sel = escape_js(selector, false);
    let n = i64_text(nth as i64);
    let mut s = CLICK_SCRIPT_0.to_owned();
    s.append(sel.as_str());
    s.append(CLICK_SCRIPT_1);
    s.append(n.as_str());
    s.append(CLICK_SCRIPT_2);
    s.append(n.as_str());
    s.append(CLICK_SCRIPT_3);
    s.append(n.as_str());
    s.append(CLICK_SCRIPT_4);
    s
}

/// Fixed text 0 of the script of `click_text_script`.
pub const CLICK_TEXT_SCRIPT_0: &'static str = r#"
            (function() {
                const searchText = '"#;
/// Fixed text 1 of the script of `click_text_script`.
pub const CLICK_TEXT_SCRIPT_1: &'static str = r#"';
                const nth = "#;
/// Fixed text 2 of the script of `click_text_script`.
pub const CLICK_TEXT_SCRIPT_2: &'static str = r#";

                // Find all elements containing the text
                const matches = [];
                const walker = document.createTreeWalker(
                    document.body,
                    NodeFilter.SHOW_ELEMENT,
                    null
                );

                while (walker.nextNode()) {
                    const node = walker.currentNode;
                    // Skip invisible elements
                    const style = window.getComputedStyle(node);
                    if (style.display === 'none' || style.visibility === 'hidden') continue;

                    // Check direct text content (text nodes that are direct children)
                    const directText = Array.from(node.childNodes)
                        .filter(n => n.nodeType === Node.TEXT_NODE)
                        .map(n => n.textContent.trim())
                        .join(' ');

                    if (directText.includes(searchText)) {
                        matches.push(node);
                        continue;
                    }

                    // For leaf-ish elements (few children), check full textContent
                    if (node.children.length <= 2 && node.textContent.includes(searchText)) {
                        // Make sure it's not a container with many text nodes
                        const text = node.textContent.trim();
                        if (text.length < 200) { // Reasonable limit for clickable elements
                            matches.push(node);
                        }
                    }
                }

                // Remove duplicates (parent/child pairs) - keep the most specific (deepest) element
                const filtered = matches.filter((el, i) => {
                    return !matches.some((other, j) => i !== j && el.contains(other) && el !== other);
                });

                if (filtered.length === 0) return { found: false, count: 0 };

                const idx = nth < 0 ? filtered.length + nth : nth;
                if (idx < 0 || idx >= filtered.length) {
                    return { found: false, count: filtered.length, index: idx };
                }

                const el = filtered[idx];
                el.scrollIntoView({ block: 'center' });
                el.click();
                return { found: true, count: filtered.length, tag: el.tagName };
            })()
            "#;

/// The script that finds the visible elements whose text holds `text`, keeps the deepest of nested matches, picks match `nth` and clicks it, in one evaluation; reports as the selector click does.
pub open spec fn click_text_script_text(text: Seq<char>, nth: int) -> Seq<char> {
    CLICK_TEXT_SCRIPT_0@ + js_escaped(text, true) + CLICK_TEXT_SCRIPT_1@ + int_text(nth) + CLICK_TEXT_SCRIPT_2@
}

/// The script that finds the visible elements whose text holds `text`, keeps the deepest of nested matches, picks match `nth` and clicks it, in one evaluation; reports as the selector click does.
pub fn click_text_script(text: &str, nth: i32) -> (r: String)
    ensures
        r@ == click_text_script_text(text@, nth as int),
{
    let txt = escape_js(text, true);
    let n = i64_text(nth as i64);
    let mut s = CLICK_TEXT_SCRIPT_0.to_owned();
    s.append(txt.as_str());
    s.append(CLICK_TEXT_SCRIPT_1);
    s.append(n.as_str());
    s.append(CLICK_TEXT_SCRIPT_2);
    s
}

/// Fixed text 0 of the script of `type_script`.
pub const TYPE_SCRIPT_0: &'static str = r#"
            (function() {
                const el = document.querySelector('"#;
/// Fixed text 1 of the script of `type_script`.
pub const TYPE_SCRIPT_1: &'static str = r#"');
                if (!el) return false;
                el.focus();
                if (el.tagName === 'INPUT' || el.tagName === 'TEXTAREA') {
                    // Use native setter to bypass React's value interception
                    const proto = el.tagName === 'INPUT'
                        ? HTMLInputElement.prototype
                        : HTMLTextAreaElement.prototype;
                    const nativeSetter = Object.getOwnPropertyDescriptor(proto, 'value').set;
                    nativeSetter.call(el, '"#;
/// Fixed text 2 of the script of `type_script`.
pub const TYPE_SCRIPT_2: &'static str = r#"');
                    el.dispatchEvent(new Event('input', { bubbles: true }));
                    el.dispatchEvent(new Event('change', { bubbles: true }));
                } else if (el.contentEditable === 'true') {
                    el.textContent = '"#;
/// Fixed text 3 of the script of `type_script`.
pub const TYPE_SCRIPT_3: &'static str = r#"';
                }
                return true;
            })()
            "#;

/// The script that focuses the element that `selector` names and sets its value to `text`, firing input and change events; reports whether the element was found.
pub open spec fn type_script_text(selector: Seq<char>, text: Seq<char>) -> Seq<char> {
    TYPE_SCRIPT_0@ + js_escaped(selector, false) + TYPE_SCRIPT_1@ + js_escaped(text, true) + TYPE_SCRIPT_2@ + js_escaped(text, true) + TYPE_SCRIPT_3@
}

/// The script that focuses the element that `selector` names and sets its value to `text`, firing input and change events; reports whether the element was found.
pub fn type_script(selector: &str, text: &str) -> (r: String)
    ensures
        r@ == type_script_text(selector@, text@),
{
    let sel = escape_js(selector, false);
    let txt = escape_js(text, true);
    let mut s = TYPE_SCRIPT_0.to_owned();
    s.append(sel.as_str());
    s.append(TYPE_SCRIPT_1);
    s.append(txt.as_str());
    s.append(TYPE_SCRIPT_2);
    s.append(txt.as_str());
    s.append(TYPE_SCRIPT_3);
    s
}

/// Fixed text 0 of the script of `type_focused_script`.
pub const TYPE_FOCUSED_SCRIPT_0: &'static str = r#"
            (function() {
                const el = document.activeElement;
                if (el && (el.tagName === 'INPUT' || el.tagName === 'TEXTAREA' || el.contentEditable === 'true')) {
                    if (el.tagName === 'INPUT' || el.tagName === 'TEXTAREA') {
                        // Use native setter to bypass React's value interception
                        const proto = el.tagName === 'INPUT'
                            ? HTMLInputElement.prototype
                            : HTMLTextAreaElement.prototype;
                        const nativeSetter = Object.getOwnPropertyDescriptor(proto, 'value').set;
                        const currentValue = el.value || '';
                        nativeSetter.call(el, currentValue + '"#;
/// Fixed text 1 of the script of `type_focused_script`.
pub const TYPE_FOCUSED_SCRIPT_1: &'static str = r#"');
                        el.dispatchEvent(new Event('input', { bubbles: true }));
                    } else {
                        document.execCommand('insertText', false, '"#;
/// Fixed text 2 of the script of `type_focused_script`.
pub const TYPE_FOCUSED_SCRIPT_2: &'static str = r#"');
                    }
                }
            })()
            "#;

/// The script that appends `text` to the value of the focused field.
pub open spec fn type_focused_script_text(text: Seq<char>) -> Seq<char> {
    TYPE_FOCUSED_SCRIPT_0@ + js_escaped(text, true) + TYPE_FOCUSED_SCRIPT_1@ + js_escaped(text, true) + TYPE_FOCUSED_SCRIPT_2@
}

/// The script that appends `text` to the value of the focused field.
pub fn type_focused_script(text: &str) -> (r: String)
    ensures
        r@ == type_focused_script_text(text@),
{
    let txt = escape_js(text, true);
    let mut s = TYPE_FOCUSED_SCRIPT_0.to_owned();
    s.append(txt.as_str());
    s.append(TYPE_FOCUSED_SCRIPT_1);
    s.append(txt.as_str());
    s.append(TYPE_FOCUSED_SCRIPT_2);
    s
}

/// Fixed text 0 of the script of `key_script`.
pub const KEY_SCRIPT_0: &'static str = r#"
            (function() {
                const el = document.activeElement || document.body;
                const event = new KeyboardEvent('keydown', {
                    key: '"#;
/// Fixed text 1 of the script of `key_script`.
pub const KEY_SCRIPT_1: &'static str = r#"',
                    bubbles: true,
                    cancelable: true
                });
                el.dispatchEvent(event);
            })()
            "#;

/// The script that dispatches a key press of `key` to the focused element.
pub open spec fn key_script_text(key: Seq<char>) -> Seq<char> {
    KEY_SCRIPT_0@ + key + KEY_SCRIPT_1@
}

/// The script that dispatches a key press of `key` to the focused element.
pub fn key_script(key: &str) -> (r: String)
    ensures
        r@ == key_script_text(key@),
{
    let mut s = KEY_SCRIPT_0.to_owned();
    s.append(key);
    s.append(KEY_SCRIPT_1);
    s
}

/// Fixed text 0 of the script of `hover_script`.
pub const HOVER_SCRIPT_0: &'static str = r#"
            (function() {
                const el = document.querySelector('"#;
/// Fixed text 1 of the script of `hover_script`.
pub const HOVER_SCRIPT_1: &'static str = r#"');
                if (!el) return false;
                el.scrollIntoView({ block: 'center' });
                el.dispatchEvent(new MouseEvent('mouseenter', { bubbles: true }));
                el.dispatchEvent(new MouseEvent('mouseover', { bubbles: true }));
                return true;
            })()
            "#;

/// The script that scrolls the element that `selector` names into view and dispatches hover events to it; reports whether it was found.
pub open spec fn hover_script_text(selector: Seq<char>) -> Seq<char> {
    HOVER_SCRIPT_0@ + js_escaped(selector, false) + HOVER_SCRIPT_1@
}

/// The script that scrolls the element that `selector` names into view and dispatches hover events to it; reports whether it was found.
pub fn hover_script(selector: &str) -> (r: String)
    ensures
        r@ == hover_script_text(selector@),
{
    let sel = escape_js(selector, false);
    let mut s = HOVER_SCRIPT_0.to_owned();
    s.append(sel.as_str());
    s.append(HOVER_SCRIPT_1);
    s
}

/// Fixed text 0 of the script of `scroll_to_script`.
pub const SCROLL_TO_SCRIPT_0: &'static str = r#"
            (function() {
                const el = document.querySelector('"#;
/// Fixed text 1 of the script of `scroll_to_script`.
pub const SCROLL_TO_SCRIPT_1: &'static str = r#"');
                if (!el) return false;
                el.scrollIntoView({ behavior: 'smooth', block: 'center' });
                return true;
            })()
            "#;

/// The script that scrolls the element that `selector` names into view; reports whether it was found.
pub open spec fn scroll_to_script_text(selector: Seq<char>) -> Seq<char> {
    SCROLL_TO_SCRIPT_0@ + js_escaped(selector, false) + SCROLL_TO_SCRIPT_1@
}

/// The script that scrolls the element that `selector` names into view; reports whether it was found.
pub fn scroll_to_script(selector: &str) -> (r: String)
    ensures
        r@ == scroll_to_script_text(selector@),
{
    let sel = escape_js(selector, false);
    let mut s = SCROLL_TO_SCRIPT_0.to_owned();
    s.append(sel.as_str());
    s.append(SCROLL_TO_SCRIPT_1);
    s
}

/// Fixed text 0 of the script of `element_probe`.
pub const ELEMENT_PROBE_0: &'static str = "document.querySelector('";
/// Fixed text 1 of the script of `element_probe`.
pub const ELEMENT_PROBE_1: &'static str = "') !== null";

/// The script that whether the element that `selector` names is present.
pub open spec fn element_probe_text(selector: Seq<char>) -> Seq<char> {
    ELEMENT_PROBE_0@ + js_escaped(selector, false) + ELEMENT_PROBE_1@
}

/// The script that whether the element that `selector` names is present.
pub fn element_probe(selector: &str) -> (r: String)
    ensures
        r@ == element_probe_text(selector@),
{
    let sel = escape_js(selector, false);
    let mut s = ELEMENT_PROBE_0.to_owned();
    s.append(sel.as_str());
    s.append(ELEMENT_PROBE_1);
    s
}

/// Fixed text 0 of the script of `text_probe`.
pub const TEXT_PROBE_0: &'static str = r#"
            (function() {
                return document.body.innerText.includes('"#;
/// Fixed text 1 of the script of `text_probe`.
pub const TEXT_PROBE_1: &'static str = r#"');
            })()
        "#;

/// The script that whether the page text holds `text`.
pub open spec fn text_probe_text(text: Seq<char>) -> Seq<char> {
    TEXT_PROBE_0@ + js_escaped(text, false) + TEXT_PROBE_1@
}

/// The script that whether the page text holds `text`.
pub fn text_probe(text: &str) -> (r: String)
    ensures
        r@ == text_probe_text(text@),
{
    let txt = escape_js(text, false);
    let mut s = TEXT_PROBE_0.to_owned();
    s.append(txt.as_str());
    s.append(TEXT_PROBE_1);
    s
}

/// Fixed text 0 of the script of `text_gone_probe`.
pub const TEXT_GONE_PROBE_0: &'static str = r#"
            (function() {
                return !document.body.innerText.includes('"#;
/// Fixed text 1 of the script of `text_gone_probe`.
pub const TEXT_GONE_PROBE_1: &'static str = r#"');
            })()
        "#;

/// The script that whether the page text no longer holds `text`.
pub open spec fn text_gone_probe_text(text: Seq<char>) -> Seq<char> {
    TEXT_GONE_PROBE_0@ + js_escaped(text, false) + TEXT_GONE_PROBE_1@
}

/// The script that whether the page text no longer holds `text`.
pub fn text_gone_probe(text: &str) -> (r: String)
    ensures
        r@ == text_gone_probe_text(text@),
{
    let txt = escape_js(text, false);
    let mut s = TEXT_GONE_PROBE_0.to_owned();
    s.append(txt.as_str());
    s.append(TEXT_GONE_PROBE_1);
    s
}

/// Fixed text 0 of the script of `navigate_script`.
pub const NAVIGATE_SCRIPT_0: &'static str = "window.location.href = '";
/// Fixed text 1 of the script of `navigate_script`.
pub const NAVIGATE_SCRIPT_1: &'static str = "'";

/// The script that sends the page to `url`.
pub open spec fn navigate_script_text(url: Seq<char>) -> Seq<char> {
    NAVIGATE_SCRIPT_0@ + js_escaped(url, false) + NAVIGATE_SCRIPT_1@
}

/// The script that sends the page to `url`.
pub fn navigate_script(url: &str) -> (r: String)
    ensures
        r@ == navigate_script_text(url@),
{
    let u = escape_js(url, false);
    let mut s = NAVIGATE_SCRIPT_0.to_owned();
    s.append(u.as_str());
    s.append(NAVIGATE_SCRIPT_1);
    s
}

/// Fixed text 0 of the script of `select_index_script`.
pub const SELECT_INDEX_SCRIPT_0: &'static str = r#"
                (function() {
                    const select = document.querySelector('"#;
/// Fixed text 1 of the script of `select_index_script`.
pub const SELECT_INDEX_SCRIPT_1: &'static str = r#"');
                    if (!select) return false;
                    const idx = parseInt('"#;
/// Fixed text 2 of the script of `select_index_script`.
pub const SELECT_INDEX_SCRIPT_2: &'static str = r#"');
                    if (idx >= 0 && idx < select.options.length) {
                        select.selectedIndex = idx;
                        select.dispatchEvent(new Event('change', { bubbles: true }));
                        return true;
                    }
                    return false;
                })()
            "#;

/// The script that selects, in the list that `selector` names, the option at the index written in `value`; reports whether it could.
pub open spec fn select_index_script_text(selector: Seq<char>, value: Seq<char>) -> Seq<char> {
    SELECT_INDEX_SCRIPT_0@ + js_escaped(selector, false) + SELECT_INDEX_SCRIPT_1@ + js_escaped(value, false) + SELECT_INDEX_SCRIPT_2@
}

/// The script that selects, in the list that `selector` names, the option at the index written in `value`; reports whether it could.
pub fn select_index_script(selector: &str, value: &str) -> (r: String)
    ensures
        r@ == select_index_script_text(selector@, value@),
{
    let sel = escape_js(selector, false);
    let v = escape_js(value, false);
    let mut s = SELECT_INDEX_SCRIPT_0.to_owned();
    s.append(sel.as_str());
    s.append(SELECT_INDEX_SCRIPT_1);
    s.append(v.as_str());
    s.append(SELECT_INDEX_SCRIPT_2);
    s
}

/// Fixed text 0 of the script of `select_label_script`.
pub const SELECT_LABEL_SCRIPT_0: &'static str = r#"
                (function() {
                    const select = document.querySelector('"#;
/// Fixed text 1 of the script of `select_label_script`.
pub const SELECT_LABEL_SCRIPT_1: &'static str = r#"');
                    if (!select) return false;
                    for (let i = 0; i < select.options.length; i++) {
                        if (select.options[i].text === '"#;
/// Fixed text 2 of the script of `select_label_script`.
pub const SELECT_LABEL_SCRIPT_2: &'static str = r#"') {
                            select.selectedIndex = i;
                            select.dispatchEvent(new Event('change', { bubbles: true }));
                            return true;
                        }
                    }
                    return false;
                })()
            "#;

/// The script that selects, in the list that `selector` names, the first option whose text is `value`; reports whether it could.
pub open spec fn select_label_script_text(selector: Seq<char>, value: Seq<char>) -> Seq<char> {
    SELECT_LABEL_SCRIPT_0@ + js_escaped(selector, false) + SELECT_LABEL_SCRIPT_1@ + js_escaped(value, false) + SELECT_LABEL_SCRIPT_2@
}

/// The script that selects, in the list that `selector` names, the first option whose text is `value`; reports whether it could.
pub fn select_label_script(selector: &str, value: &str) -> (r: String)
    ensures
        r@ == select_label_script_text(selector@, value@),
{
    let sel = escape_js(selector, false);
    let v = escape_js(value, false);
    let mut s = SELECT_LABEL_SCRIPT_0.to_owned();
    s.append(sel.as_str());
    s.append(SELECT_LABEL_SCRIPT_1);
    s.append(v.as_str());
    s.append(SELECT_LABEL_SCRIPT_2);
    s
}

/// Fixed text 0 of the script of `select_value_script`.
pub const SELECT_VALUE_SCRIPT_0: &'static str = r#"
                (function() {
                    const select = document.querySelector('"#;
/// Fixed text 1 of the script of `select_value_script`.
pub const SELECT_VALUE_SCRIPT_1: &'static str = r#"');
                    if (!select) return false;
                    select.value = '"#;
/// Fixed text 2 of the script of `select_value_script`.
pub const SELECT_VALUE_SCRIPT_2: &'static str = r#"';
                    select.dispatchEvent(new Event('change', { bubbles: true }));
                    return true;
                })()
            "#;

/// The script that sets the value of the list that `selector` names to `value`; reports whether the list was found.
pub open spec fn select_value_script_text(selector: Seq<char>, value: Seq<char>) -> Seq<char> {
    SELECT_VALUE_SCRIPT_0@ + js_escaped(selector, false) + SELECT_VALUE_SCRIPT_1@ + js_escaped(value, false) + SELECT_VALUE_SCRIPT_2@
}

/// The script that sets the value of the list that `selector` names to `value`; reports whether the list was found.
pub fn select_value_script(selector: &str, value: &str) -> (r: String)
    ensures
        r@ == select_value_script_text(selector@, value@),
{
    let sel = escape_js(selector, false);
    let v = escape_js(value, false);
    let mut s = SELECT_VALUE_SCRIPT_0.to_owned();
    s.append(sel.as_str());
    s.append(SELECT_VALUE_SCRIPT_1);
    s.append(v.as_str());
    s.append(SELECT_VALUE_SCRIPT_2);
    s
}

/// Fixed text 0 of the script of `file_input_script`.
pub const FILE_INPUT_SCRIPT_0: &'static str = r#"
            (function() {
                const el = document.querySelector('"#;
/// Fixed text 1 of the script of `file_input_script`.
pub const FILE_INPUT_SCRIPT_1: &'static str = r#"');
                if (!el || el.tagName !== 'INPUT' || el.type !== 'file') return null;
                return el;
            })()
        "#;

/// The script that finds the file input that `selector` names.
pub open spec fn file_input_script_text(selector: Seq<char>) -> Seq<char> {
    FILE_INPUT_SCRIPT_0@ + js_escaped(selector, false) + FILE_INPUT_SCRIPT_1@
}

/// The script that finds the file input that `selector` names.
pub fn file_input_script(selector: &str) -> (r: String)
    ensures
        r@ == file_input_script_text(selector@),
{
    let sel = escape_js(selector, false);
    let mut s = FILE_INPUT_SCRIPT_0.to_owned();
    s.append(sel.as_str());
    s.append(FILE_INPUT_SCRIPT_1);
    s
}

/// Fixed text 0 of the script of `file_change_script`.
pub const FILE_CHANGE_SCRIPT_0: &'static str = r#"
            (function() {
                const input = document.querySelector('"#;
/// Fixed text 1 of the script of `file_change_script`.
pub const FILE_CHANGE_SCRIPT_1: &'static str = r#"');
                if (input) {
                    input.dispatchEvent(new Event('change', { bubbles: true }));
                }
                return true;
            })()
        "#;

/// The script that tells the file input that `selector` names that its files changed.
pub open spec fn file_change_script_text(selector: Seq<char>) -> Seq<char> {
    FILE_CHANGE_SCRIPT_0@ + js_escaped(selector, false) + FILE_CHANGE_SCRIPT_1@
}

/// The script that tells the file input that `selector` names that its files changed.
pub fn file_change_script(selector: &str) -> (r: String)
    ensures
        r@ == file_change_script_text(selector@),
{
    let sel = escape_js(selector, false);
    let mut s = FILE_CHANGE_SCRIPT_0.to_owned();
    s.append(sel.as_str());
    s.append(FILE_CHANGE_SCRIPT_1);
    s
}

/// Fixed text 0 of the script of `dialog_script`.
pub const DIALOG_SCRIPT_0: &'static str = r#"
            (function() {
                // Store original methods
                window.__origAlert = window.__origAlert || window.alert;
                window.__origConfirm = window.__origConfirm || window.confirm;
                window.__origPrompt = window.__origPrompt || window.prompt;

                // Override with auto-response
                window.alert = function(msg) { window.__lastDialog = { type: 'alert', message: msg }; };
                window.confirm = function(msg) { window.__lastDialog = { type: 'confirm', message: msg }; return "#;
/// Fixed text 1 of the script of `dialog_script`.
pub const DIALOG_SCRIPT_1: &'static str = r#"; };
                window.prompt = function(msg, def) { window.__lastDialog = { type: 'prompt', message: msg }; return "#;
/// Fixed text 2 of the script of `dialog_script`.
pub const DIALOG_SCRIPT_2: &'static str = r#" ? "#;
/// Fixed text 3 of the script of `dialog_script`.
pub const DIALOG_SCRIPT_3: &'static str = r#" : null; };

                return true;
            })()
        "#;

/// How a boolean is written in a script.
pub open spec fn bool_text(b: bool) -> Seq<char> {
    if b {
        "true"@
    } else {
        "false"@
    }
}

/// The script literal for the text a prompt is answered with: empty when none.
pub open spec fn prompt_answer_text(text: Option<Seq<char>>) -> Seq<char> {
    match text {
        Some(t) => "'"@ + quotes_escaped(t) + "'"@,
        None => "''"@,
    }
}

/// The script that answers the page's alerts, confirmations and prompts from
/// now on: confirmations with `accept`, prompts with `text` when accepting.
pub open spec fn dialog_script_text(accept: bool, text: Option<Seq<char>>) -> Seq<char> {
    DIALOG_SCRIPT_0@ + bool_text(accept) + DIALOG_SCRIPT_1@ + bool_text(accept) + DIALOG_SCRIPT_2@
        + prompt_answer_text(text) + DIALOG_SCRIPT_3@
}

/// The script that answers the page's dialogs.
pub fn dialog_script(accept: bool, text: Option<&str>) -> (r: String)
    ensures
        r@ == dialog_script_text(
            accept,
            match text {
                Some(t) => Some(t@),
                None => None,
            },
        ),
{
    let b = if accept {
        "true"
    } else {
        "false"
    };
    let answer = match text {
        Some(t) => {
            let mut a = "'".to_owned();
            a.append(escape_quotes(t).as_str());
            a.append("'");
            a
        },
        None => "''".to_owned(),
    };
    let mut s = DIALOG_SCRIPT_0.to_owned();
    s.append(b);
    s.append(DIALOG_SCRIPT_1);
    s.append(b);
    s.append(DIALOG_SCRIPT_2);
    s.append(answer.as_str());
    s.append(DIALOG_SCRIPT_3);
    s
}

/// How an option of a list is chosen.
#[derive(Debug, Clone, Copy, PartialEq, Eq, Structural)]
pub enum SelectBy {
    /// By the option's value.
    Value,
    /// By the option's visible text.
    Label,
    /// By the option's position.
    Index,
}

/// The script that chooses an option of a list.
pub open spec fn select_script_text(selector: Seq<char>, value: Seq<char>, by: SelectBy) -> Seq<char> {
    match by {
        SelectBy::Value => select_value_script_text(selector, value),
        SelectBy::Label => select_label_script_text(selector, value),
        SelectBy::Index => select_index_script_text(selector, value),
    }
}

/// The script that chooses an option of a list.
pub fn select_script(selector: &str, value: &str, by: SelectBy) -> (r: String)
    ensures
        r@ == select_script_text(selector@, value@, by),
{
    match by {
        SelectBy::Value => select_value_script(selector, value),
        SelectBy::Label => select_label_script(selector, value),
        SelectBy::Index => select_index_script(selector, value),
    }
}

} // verus!
