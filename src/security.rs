//! Detection of sensitive actions (secrets typed, consequential submissions,
//! sensitive sites and uploads) and the list of blocked sites.

use vstd::prelude::*;
use crate::text::{
    has_sub, lower_of, lowercase, chars_of, vec_has_sub, contains_text, text_eq, first_hit,
    find_first_hit, lit_views, opt_text, join2,
};

verus! {

/// The kind of sensitive action that was detected.
#[derive(Debug, Clone, Copy, PartialEq, Eq, Structural)]
pub enum SensitiveActionType {
    PasswordInput,
    SensitiveFieldInput,
    PaymentSubmission,
    LoginSubmission,
    FileUpload,
    FinancialSite,
    BlockedSite,
    PersonalData,
}

/// How serious a detection is.
#[derive(Debug, Clone, Copy, PartialEq, Eq, Structural)]
pub enum Severity {
    Low,
    Medium,
    High,
    Critical,
}

/// What is known of the element an action is aimed at.
#[derive(Debug, Clone)]
pub struct ElementInfo {
    pub tag: String,
    pub id: Option<String>,
    pub name: Option<String>,
    pub input_type: Option<String>,
    pub form_action: Option<String>,
}

/// The result of a check.
#[derive(Debug, Clone)]
pub struct SensitiveActionDetection {
    pub detected: bool,
    pub action_type: Option<SensitiveActionType>,
    pub reason: Option<String>,
    pub severity: Severity,
    pub element_info: Option<ElementInfo>,
}

/// The mathematical value of an `ElementInfo`.
pub struct ElementView {
    pub tag: Seq<char>,
    pub id: Option<Seq<char>>,
    pub name: Option<Seq<char>>,
    pub input_type: Option<Seq<char>>,
    pub form_action: Option<Seq<char>>,
}

/// The mathematical value of a `SensitiveActionDetection`.
pub struct DetectionView {
    pub detected: bool,
    pub action_type: Option<SensitiveActionType>,
    pub reason: Option<Seq<char>>,
    pub severity: Severity,
    pub element: Option<ElementView>,
}

impl View for ElementInfo {
    type V = ElementView;

    open spec fn view(&self) -> ElementView {
        ElementView {
            tag: self.tag@,
            id: opt_text(self.id),
            name: opt_text(self.name),
            input_type: opt_text(self.input_type),
            form_action: opt_text(self.form_action),
        }
    }
}

impl View for SensitiveActionDetection {
    type V = DetectionView;

    open spec fn view(&self) -> DetectionView {
        DetectionView {
            detected: self.detected,
            action_type: self.action_type,
            reason: opt_text(self.reason),
            severity: self.severity,
            element: match self.element_info {
                Some(e) => Some(e@),
                None => None,
            },
        }
    }
}

/// Nothing sensitive.
pub open spec fn clear_view() -> DetectionView {
    DetectionView {
        detected: false,
        action_type: None,
        reason: None,
        severity: Severity::Low,
        element: None,
    }
}

/// A detection of the given kind.
pub open spec fn flag_view(
    kind: SensitiveActionType,
    severity: Severity,
    reason: Seq<char>,
    element: Option<ElementView>,
) -> DetectionView {
    DetectionView {
        detected: true,
        action_type: Some(kind),
        reason: Some(reason),
        severity,
        element,
    }
}

/// An element known by its tag and, perhaps, its name or its input type.
pub open spec fn element_view(
    tag: Seq<char>,
    name: Option<Seq<char>>,
    input_type: Option<Seq<char>>,
) -> ElementView {
    ElementView { tag, id: None, name, input_type, form_action: None }
}

impl Default for SensitiveActionDetection {
    fn default() -> (r: SensitiveActionDetection)
        ensures
            r@ == clear_view(),
    {
        SensitiveActionDetection {
            detected: false,
            action_type: None,
            reason: None,
            severity: Severity::Low,
            element_info: None,
        }
    }
}

fn flagged(
    kind: SensitiveActionType,
    severity: Severity,
    reason: String,
    element_info: Option<ElementInfo>,
) -> (r: SensitiveActionDetection)
    ensures
        r.detected,
        r.action_type == Some(kind),
        r.reason == Some(reason),
        r.severity == severity,
        r.element_info == element_info,
{
    SensitiveActionDetection {
        detected: true,
        action_type: Some(kind),
        reason: Some(reason),
        severity,
        element_info,
    }
}

fn element(tag: &str, name: Option<String>, input_type: Option<String>) -> (r: ElementInfo)
    ensures
        r@ == element_view(tag@, opt_text(name), opt_text(input_type)),
{
    ElementInfo { tag: tag.to_owned(), id: None, name, input_type, form_action: None }
}

/// Selector parts that mark a sensitive input field.
pub open spec fn field_patterns() -> Seq<Seq<char>> {
    seq![
        "ssn"@,
        "social-security"@,
        "credit-card"@,
        "creditcard"@,
        "card-number"@,
        "cvv"@,
        "cvc"@,
        "expiry"@,
        "pin"@,
        "bank-account"@,
        "routing"@,
        "tax-id"@,
        "passport"@,
        "license"@,
    ]
}

fn field_patterns_list() -> (r: Vec<&'static str>)
    ensures
        lit_views(r@) == field_patterns(),
{
    let mut v: Vec<&'static str> = Vec::new();
    v.push("ssn");
    v.push("social-security");
    v.push("credit-card");
    v.push("creditcard");
    v.push("card-number");
    v.push("cvv");
    v.push("cvc");
    v.push("expiry");
    v.push("pin");
    v.push("bank-account");
    v.push("routing");
    v.push("tax-id");
    v.push("passport");
    v.push("license");
    assert(lit_views(v@) =~= field_patterns());
    v
}

/// What each sensitive field pattern stands for, position by position.
pub open spec fn field_descriptions() -> Seq<Seq<char>> {
    seq![
        "Social Security Number"@,
        "Social Security Number"@,
        "Credit Card"@,
        "Credit Card"@,
        "Credit Card Number"@,
        "CVV Code"@,
        "CVC Code"@,
        "Expiration Date"@,
        "PIN"@,
        "Bank Account"@,
        "Routing Number"@,
        "Tax ID"@,
        "Passport Number"@,
        "License Number"@,
    ]
}

fn field_descriptions_list() -> (r: Vec<&'static str>)
    ensures
        lit_views(r@) == field_descriptions(),
{
    let mut v: Vec<&'static str> = Vec::new();
    v.push("Social Security Number");
    v.push("Social Security Number");
    v.push("Credit Card");
    v.push("Credit Card");
    v.push("Credit Card Number");
    v.push("CVV Code");
    v.push("CVC Code");
    v.push("Expiration Date");
    v.push("PIN");
    v.push("Bank Account");
    v.push("Routing Number");
    v.push("Tax ID");
    v.push("Passport Number");
    v.push("License Number");
    assert(lit_views(v@) =~= field_descriptions());
    v
}

/// Selector parts that mark a consequential submission.
pub open spec fn submit_patterns() -> Seq<Seq<char>> {
    seq![
        "login"@,
        "signin"@,
        "sign-in"@,
        "signup"@,
        "sign-up"@,
        "register"@,
        "checkout"@,
        "payment"@,
        "purchase"@,
        "buy"@,
        "transfer"@,
        "send-money"@,
        "confirm"@,
        "delete"@,
        "remove"@,
    ]
}

fn submit_patterns_list() -> (r: Vec<&'static str>)
    ensures
        lit_views(r@) == submit_patterns(),
{
    let mut v: Vec<&'static str> = Vec::new();
    v.push("login");
    v.push("signin");
    v.push("sign-in");
    v.push("signup");
    v.push("sign-up");
    v.push("register");
    v.push("checkout");
    v.push("payment");
    v.push("purchase");
    v.push("buy");
    v.push("transfer");
    v.push("send-money");
    v.push("confirm");
    v.push("delete");
    v.push("remove");
    assert(lit_views(v@) =~= submit_patterns());
    v
}

/// What each submission pattern stands for, position by position.
pub open spec fn submit_descriptions() -> Seq<Seq<char>> {
    seq![
        "Login form submission"@,
        "Sign-in form submission"@,
        "Sign-in form submission"@,
        "Sign-up form submission"@,
        "Sign-up form submission"@,
        "Registration form submission"@,
        "Checkout form submission"@,
        "Payment form submission"@,
        "Purchase form submission"@,
        "Purchase form submission"@,
        "Transfer form submission"@,
        "Money transfer"@,
        "Confirmation action"@,
        "Delete action"@,
        "Remove action"@,
    ]
}

fn submit_descriptions_list() -> (r: Vec<&'static str>)
    ensures
        lit_views(r@) == submit_descriptions(),
{
    let mut v: Vec<&'static str> = Vec::new();
    v.push("Login form submission");
    v.push("Sign-in form submission");
    v.push("Sign-in form submission");
    v.push("Sign-up form submission");
    v.push("Sign-up form submission");
    v.push("Registration form submission");
    v.push("Checkout form submission");
    v.push("Payment form submission");
    v.push("Purchase form submission");
    v.push("Purchase form submission");
    v.push("Transfer form submission");
    v.push("Money transfer");
    v.push("Confirmation action");
    v.push("Delete action");
    v.push("Remove action");
    assert(lit_views(v@) =~= submit_descriptions());
    v
}

/// Address parts of financial sites.
pub open spec fn financial_patterns() -> Seq<Seq<char>> {
    seq![
        "bank"@,
        "paypal"@,
        "venmo"@,
        "chase"@,
        "wellsfargo"@,
        "bankofamerica"@,
        "citibank"@,
        "capitalone"@,
        "usbank"@,
        "pnc"@,
        "td.com"@,
        "schwab"@,
        "fidelity"@,
        "vanguard"@,
        "robinhood"@,
        "coinbase"@,
        "binance"@,
        "crypto.com"@,
        "kraken"@,
        "trading"@,
        "broker"@,
        "invest"@,
    ]
}

fn financial_patterns_list() -> (r: Vec<&'static str>)
    ensures
        lit_views(r@) == financial_patterns(),
{
    let mut v: Vec<&'static str> = Vec::new();
    v.push("bank");
    v.push("paypal");
    v.push("venmo");
    v.push("chase");
    v.push("wellsfargo");
    v.push("bankofamerica");
    v.push("citibank");
    v.push("capitalone");
    v.push("usbank");
    v.push("pnc");
    v.push("td.com");
    v.push("schwab");
    v.push("fidelity");
    v.push("vanguard");
    v.push("robinhood");
    v.push("coinbase");
    v.push("binance");
    v.push("crypto.com");
    v.push("kraken");
    v.push("trading");
    v.push("broker");
    v.push("invest");
    assert(lit_views(v@) =~= financial_patterns());
    v
}

/// Address parts of sites that hold personal or health data.
pub open spec fn personal_data_patterns() -> Seq<Seq<char>> {
    seq![
        "healthcare"@,
        "medical"@,
        "health.gov"@,
        "irs.gov"@,
        "ssa.gov"@,
        "social-security"@,
        "medicare"@,
        "medicaid"@,
        "insurance"@,
    ]
}

fn personal_data_patterns_list() -> (r: Vec<&'static str>)
    ensures
        lit_views(r@) == personal_data_patterns(),
{
    let mut v: Vec<&'static str> = Vec::new();
    v.push("healthcare");
    v.push("medical");
    v.push("health.gov");
    v.push("irs.gov");
    v.push("ssa.gov");
    v.push("social-security");
    v.push("medicare");
    v.push("medicaid");
    v.push("insurance");
    assert(lit_views(v@) =~= personal_data_patterns());
    v
}

/// File extensions of documents, keys and configuration.
pub open spec fn sensitive_extensions() -> Seq<Seq<char>> {
    seq![
        "pdf"@,
        "doc"@,
        "docx"@,
        "xls"@,
        "xlsx"@,
        "csv"@,
        "txt"@,
        "key"@,
        "pem"@,
        "crt"@,
        "p12"@,
        "pfx"@,
        "env"@,
        "conf"@,
        "config"@,
        "ini"@,
        "json"@,
        "yaml"@,
        "yml"@,
    ]
}

fn sensitive_extensions_list() -> (r: Vec<&'static str>)
    ensures
        lit_views(r@) == sensitive_extensions(),
{
    let mut v: Vec<&'static str> = Vec::new();
    v.push("pdf");
    v.push("doc");
    v.push("docx");
    v.push("xls");
    v.push("xlsx");
    v.push("csv");
    v.push("txt");
    v.push("key");
    v.push("pem");
    v.push("crt");
    v.push("p12");
    v.push("pfx");
    v.push("env");
    v.push("conf");
    v.push("config");
    v.push("ini");
    v.push("json");
    v.push("yaml");
    v.push("yml");
    assert(lit_views(v@) =~= sensitive_extensions());
    v
}

/// File name parts that mark an identity, financial or secret document.
pub open spec fn sensitive_file_names() -> Seq<Seq<char>> {
    seq![
        "passport"@,
        "license"@,
        "ssn"@,
        "tax"@,
        "w2"@,
        "1099"@,
        "bank"@,
        "statement"@,
        "credential"@,
        "secret"@,
        "key"@,
        "password"@,
    ]
}

fn sensitive_file_names_list() -> (r: Vec<&'static str>)
    ensures
        lit_views(r@) == sensitive_file_names(),
{
    let mut v: Vec<&'static str> = Vec::new();
    v.push("passport");
    v.push("license");
    v.push("ssn");
    v.push("tax");
    v.push("w2");
    v.push("1099");
    v.push("bank");
    v.push("statement");
    v.push("credential");
    v.push("secret");
    v.push("key");
    v.push("password");
    assert(lit_views(v@) =~= sensitive_file_names());
    v
}

/// Whether the lowercased text holds one of the patterns, lowercased.
pub open spec fn any_pattern_in(l: Seq<char>, pats: Seq<String>) -> bool {
    exists|k: int| 0 <= k < pats.len() && has_sub(l, lower_of(#[trigger] pats[k]@))
}

/// Whether an address is blocked: with blocking by default, unless it holds
/// an allowed pattern; otherwise, when it holds a blocked pattern. Matching
/// ignores case.
pub open spec fn blocked_spec(c: BlockedSitesConfig, url: Seq<char>) -> bool {
    if c.default_block {
        !any_pattern_in(lower_of(url), c.allowed@)
    } else {
        any_pattern_in(lower_of(url), c.blocked@)
    }
}

/// The list without the entries equal to `x`.
pub open spec fn without(s: Seq<Seq<char>>, x: Seq<char>) -> Seq<Seq<char>>
    decreases s.len(),
{
    if s.len() == 0 {
        s
    } else if s.last() == x {
        without(s.drop_last(), x)
    } else {
        without(s.drop_last(), x).push(s.last())
    }
}

/// The list with `x` added at the end, unless it is already there.
pub open spec fn with_entry(s: Seq<Seq<char>>, x: Seq<char>) -> Seq<Seq<char>> {
    if s.contains(x) {
        s
    } else {
        s.push(x)
    }
}

/// Sites to refuse or to let through.
#[derive(Debug, Clone)]
pub struct BlockedSitesConfig {
    pub blocked: Vec<String>,
    /// Block every site that is not allowed.
    pub default_block: bool,
    pub allowed: Vec<String>,
}

impl Default for BlockedSitesConfig {
    fn default() -> (r: BlockedSitesConfig)
        ensures
            r.blocked@.len() == 0,
            !r.default_block,
            r.allowed@.len() == 0,
    {
        BlockedSitesConfig { blocked: Vec::new(), default_block: false, allowed: Vec::new() }
    }
}

fn any_pattern(l: &Vec<char>, pats: &Vec<String>) -> (r: bool)
    ensures
        r == any_pattern_in(l@, pats@),
{
    let n = pats.len();
    let mut i: usize = 0;
    while i < n
        invariant
            n == pats@.len(),
            i <= n,
            forall|k: int| 0 <= k < i ==> !has_sub(l@, lower_of(#[trigger] pats@[k]@)),
        decreases n - i,
    {
        let p = lowercase(pats[i].as_str());
        let pv = chars_of(p.as_str());
        if vec_has_sub(l, &pv) {
            return true;
        }
        i += 1;
    }
    false
}

fn string_list_contains(v: &Vec<String>, x: &str) -> (r: bool)
    ensures
        r == crate::text::views(v@).contains(x@),
{
    let n = v.len();
    let mut i: usize = 0;
    while i < n
        invariant
            n == v@.len(),
            i <= n,
            forall|k: int| 0 <= k < i ==> v@[k]@ != x@,
        decreases n - i,
    {
        if text_eq(v[i].as_str(), x) {
            assert(crate::text::views(v@)[i as int] == x@);
            return true;
        }
        i += 1;
    }
    proof {
        if crate::text::views(v@).contains(x@) {
            let k = choose|k: int|
                0 <= k < crate::text::views(v@).len() && crate::text::views(v@)[k] == x@;
            assert(v@[k]@ == x@);
        }
    }
    false
}

impl BlockedSitesConfig {
    /// Whether navigation to `url` is refused.
    pub fn is_blocked(&self, url: &str) -> (r: bool)
        ensures
            r == blocked_spec(*self, url@),
    {
        let l = chars_of(lowercase(url).as_str());
        if self.default_block {
            !any_pattern(&l, &self.allowed)
        } else {
            any_pattern(&l, &self.blocked)
        }
    }

    /// Adds a blocked pattern, unless it is already listed.
    pub fn block(&mut self, pattern: &str)
        ensures
            crate::text::views(final(self).blocked@) == with_entry(
                crate::text::views(old(self).blocked@),
                pattern@,
            ),
            final(self).allowed@ == old(self).allowed@,
            final(self).default_block == old(self).default_block,
    {
        if !string_list_contains(&self.blocked, pattern) {
            let ghost before = self.blocked@;
            let p = pattern.to_owned();
            self.blocked.push(p);
            assert(crate::text::views(self.blocked@) =~= crate::text::views(before).push(
                pattern@,
            ));
        }
    }

    /// Removes every blocked pattern equal to `pattern`.
    pub fn unblock(&mut self, pattern: &str)
        ensures
            crate::text::views(final(self).blocked@) == without(
                crate::text::views(old(self).blocked@),
                pattern@,
            ),
            final(self).allowed@ == old(self).allowed@,
            final(self).default_block == old(self).default_block,
    {
        let n = self.blocked.len();
        let mut kept: Vec<String> = Vec::new();
        let mut i: usize = 0;
        while i < n
            invariant
                n == self.blocked@.len(),
                i <= n,
                crate::text::views(kept@) == without(
                    crate::text::views(self.blocked@.take(i as int)),
                    pattern@,
                ),
            decreases n - i,
        {
            let ghost before = kept@;
            proof {
                assert(crate::text::views(self.blocked@.take(i + 1)).drop_last() =~= crate::text::views(
                    self.blocked@.take(i as int),
                ));
            }
            if !text_eq(self.blocked[i].as_str(), pattern) {
                let e = self.blocked[i].clone();
                kept.push(e);
                assert(crate::text::views(kept@) =~= crate::text::views(before).push(e@));
            }
            i += 1;
        }
        assert(self.blocked@.take(n as int) =~= self.blocked@);
        self.blocked = kept;
    }

    /// Adds an allowed pattern, unless it is already listed.
    pub fn allow(&mut self, pattern: &str)
        ensures
            crate::text::views(final(self).allowed@) == with_entry(
                crate::text::views(old(self).allowed@),
                pattern@,
            ),
            final(self).blocked@ == old(self).blocked@,
            final(self).default_block == old(self).default_block,
    {
        if !string_list_contains(&self.allowed, pattern) {
            let ghost before = self.allowed@;
            let p = pattern.to_owned();
            self.allowed.push(p);
            assert(crate::text::views(self.allowed@) =~= crate::text::views(before).push(
                pattern@,
            ));
        }
    }
}

/// Cues of a password field in a lowercased selector.
pub open spec fn password_cue(l: Seq<char>) -> bool {
    has_sub(l, "password"@) || has_sub(l, "[type=password]"@) || has_sub(l, "[type=\"password\"]"@)
}

/// A position below the length of the list: what a first hit gives.
spec fn is_first_hit_at(l: Seq<char>, pats: Seq<Seq<char>>, k: int) -> bool {
    first_hit(l, pats) == Some(k) && 0 <= k < pats.len()
}

/// The check of typing into the element that a lowercased selector names.
pub open spec fn type_check_spec(l: Seq<char>) -> DetectionView {
    if password_cue(l) {
        flag_view(
            SensitiveActionType::PasswordInput,
            Severity::High,
            "Typing into password field"@,
            Some(element_view("input"@, None, Some("password"@))),
        )
    } else {
        match first_hit(l, field_patterns()) {
            Some(k) => flag_view(
                SensitiveActionType::SensitiveFieldInput,
                Severity::High,
                "Typing into "@ + field_descriptions()[k] + " field"@,
                Some(element_view("input"@, Some(field_patterns()[k]), None)),
            ),
            None => clear_view(),
        }
    }
}

/// Cues of a button in a lowercased selector.
pub open spec fn button_cue(l: Seq<char>) -> bool {
    has_sub(l, "submit"@) || has_sub(l, "button"@) || has_sub(l, "btn"@)
}

/// Submission patterns whose action cannot be taken back.
pub open spec fn critical_pattern(p: Seq<char>) -> bool {
    has_sub(p, "delete"@) || has_sub(p, "remove"@) || has_sub(p, "payment"@) || has_sub(
        p,
        "checkout"@,
    ) || has_sub(p, "transfer"@)
}

/// The check of clicking the element that a lowercased selector names.
pub open spec fn click_check_spec(l: Seq<char>) -> DetectionView {
    if !button_cue(l) {
        clear_view()
    } else {
        match first_hit(l, submit_patterns()) {
            Some(k) => flag_view(
                SensitiveActionType::PaymentSubmission,
                if critical_pattern(submit_patterns()[k]) {
                    Severity::Critical
                } else {
                    Severity::Medium
                },
                submit_descriptions()[k],
                Some(element_view("button"@, None, None)),
            ),
            None => clear_view(),
        }
    }
}

/// The check of navigating to `url`.
pub open spec fn navigation_check_spec(c: BlockedSitesConfig, url: Seq<char>) -> DetectionView {
    if blocked_spec(c, url) {
        flag_view(
            SensitiveActionType::BlockedSite,
            Severity::Critical,
            "Navigation to blocked site: "@ + url,
            None,
        )
    } else if first_hit(lower_of(url), financial_patterns()) is Some {
        flag_view(
            SensitiveActionType::FinancialSite,
            Severity::High,
            "Navigating to financial/banking site"@,
            None,
        )
    } else if first_hit(lower_of(url), personal_data_patterns()) is Some {
        flag_view(
            SensitiveActionType::PersonalData,
            Severity::High,
            "Navigating to site with personal/health data"@,
            None,
        )
    } else {
        clear_view()
    }
}

/// The extension of the file a path names, if it has one.
pub uninterp spec fn extension_of(path: Seq<char>) -> Option<Seq<char>>;

/// The last component of a path, if it names one.
pub uninterp spec fn file_name_of(path: Seq<char>) -> Option<Seq<char>>;

/// Relies on `Path::extension`: the part of the file name after its last
/// dot, if any; the path is UTF-8, so the conversion back loses nothing.
#[verifier::external_body]
fn path_extension(path: &str) -> (r: Option<String>)
    ensures
        opt_text(r) == extension_of(path@),
{
    std::path::Path::new(path).extension().map(|e| e.to_string_lossy().into_owned())
}

/// Relies on `Path::file_name`: the last component of the path, if any; the
/// path is UTF-8, so the conversion back loses nothing.
#[verifier::external_body]
fn path_file_name(path: &str) -> (r: Option<String>)
    ensures
        opt_text(r) == file_name_of(path@),
{
    std::path::Path::new(path).file_name().map(|n| n.to_string_lossy().into_owned())
}

/// The lowercased file name of a path; empty when it names none.
pub open spec fn lowered_file_name(path: Seq<char>) -> Seq<char> {
    match file_name_of(path) {
        Some(n) => lower_of(n),
        None => Seq::empty(),
    }
}

/// What one file to upload gives: a sensitive extension (medium), else a
/// sensitive name (high), else nothing.
pub open spec fn file_check_spec(path: Seq<char>) -> Option<DetectionView> {
    let reason = "Uploading potentially sensitive file: "@ + path;
    if extension_of(path) is Some && sensitive_extensions().contains(
        lower_of(extension_of(path)->Some_0),
    ) {
        Some(flag_view(SensitiveActionType::FileUpload, Severity::Medium, reason, None))
    } else if first_hit(lowered_file_name(path), sensitive_file_names()) is Some {
        Some(flag_view(SensitiveActionType::FileUpload, Severity::High, reason, None))
    } else {
        None
    }
}

/// The check of an upload: the first file that gives a detection decides.
pub open spec fn upload_check_spec(paths: Seq<Seq<char>>) -> DetectionView
    decreases paths.len(),
{
    if paths.len() == 0 {
        clear_view()
    } else {
        match file_check_spec(paths[0]) {
            Some(d) => d,
            None => upload_check_spec(paths.drop_first()),
        }
    }
}

fn in_list(x: &str, list: &Vec<&str>) -> (r: bool)
    ensures
        r == lit_views(list@).contains(x@),
{
    let n = list.len();
    let mut i: usize = 0;
    while i < n
        invariant
            n == list@.len(),
            i <= n,
            forall|k: int| 0 <= k < i ==> lit_views(list@)[k] != x@,
        decreases n - i,
    {
        if text_eq(list[i], x) {
            assert(lit_views(list@)[i as int] == x@);
            return true;
        }
        i += 1;
    }
    false
}

fn check_file(path: &str) -> (r: Option<SensitiveActionDetection>)
    ensures
        match r {
            Some(d) => file_check_spec(path@) == Some(d@),
            None => file_check_spec(path@) is None,
        },
{
    let reason = join2("Uploading potentially sensitive file: ", path);
    let ext = path_extension(path);
    let exts = sensitive_extensions_list();
    let sensitive_ext = match &ext {
        Some(e) => in_list(lowercase(e.as_str()).as_str(), &exts),
        None => false,
    };
    if sensitive_ext {
        return Some(flagged(SensitiveActionType::FileUpload, Severity::Medium, reason, None));
    }
    let name = match path_file_name(path) {
        Some(n) => lowercase(n.as_str()),
        None => String::new(),
    };
    let nv = chars_of(name.as_str());
    let names = sensitive_file_names_list();
    match find_first_hit(&nv, &names) {
        Some(_) => Some(flagged(SensitiveActionType::FileUpload, Severity::High, reason, None)),
        None => None,
    }
}

/// The check of typing, on a lowercased selector.
pub fn type_check_lowered(lower: &str) -> (r: SensitiveActionDetection)
    ensures
        r@ == type_check_spec(lower@),
{
    let l = chars_of(lower);
    if vec_has_sub(&l, &chars_of("password")) || vec_has_sub(&l, &chars_of("[type=password]"))
        || vec_has_sub(&l, &chars_of("[type=\"password\"]")) {
        let e = element("input", None, Some("password".to_owned()));
        return flagged(
            SensitiveActionType::PasswordInput,
            Severity::High,
            "Typing into password field".to_owned(),
            Some(e),
        );
    }
    let pats = field_patterns_list();
    let descs = field_descriptions_list();
    assert(lit_views(descs@).len() == descs@.len());
    assert(lit_views(pats@).len() == pats@.len());
    match find_first_hit(&l, &pats) {
        Some(k) => {
            proof {
                assert(lit_views(pats@)[k as int] == pats@[k as int]@);
                assert(lit_views(descs@)[k as int] == descs@[k as int]@);
                assert(is_first_hit_at(l@, lit_views(pats@), k as int));
            }
            let mut reason = join2("Typing into ", descs[k]);
            reason.append(" field");
            let e = element("input", Some(pats[k].to_owned()), None);
            flagged(SensitiveActionType::SensitiveFieldInput, Severity::High, reason, Some(e))
        },
        None => SensitiveActionDetection::default(),
    }
}

/// The check of clicking, on a lowercased selector.
pub fn click_check_lowered(lower: &str) -> (r: SensitiveActionDetection)
    ensures
        r@ == click_check_spec(lower@),
{
    let l = chars_of(lower);
    if !(vec_has_sub(&l, &chars_of("submit")) || vec_has_sub(&l, &chars_of("button"))
        || vec_has_sub(&l, &chars_of("btn"))) {
        return SensitiveActionDetection::default();
    }
    let pats = submit_patterns_list();
    let descs = submit_descriptions_list();
    assert(lit_views(descs@).len() == descs@.len());
    assert(lit_views(pats@).len() == pats@.len());
    match find_first_hit(&l, &pats) {
        Some(k) => {
            proof {
                assert(lit_views(pats@)[k as int] == pats@[k as int]@);
                assert(lit_views(descs@)[k as int] == descs@[k as int]@);
                assert(is_first_hit_at(l@, lit_views(pats@), k as int));
            }
            let p = pats[k];
            let critical = contains_text(p, "delete") || contains_text(p, "remove")
                || contains_text(p, "payment") || contains_text(p, "checkout")
                || contains_text(p, "transfer");
            let severity = if critical {
                Severity::Critical
            } else {
                Severity::Medium
            };
            let e = element("button", None, None);
            flagged(
                SensitiveActionType::PaymentSubmission,
                severity,
                descs[k].to_owned(),
                Some(e),
            )
        },
        None => SensitiveActionDetection::default(),
    }
}


/// Checks the actions that put secrets, money or identity at stake.
pub struct SecurityChecker {
    pub blocked_sites: BlockedSitesConfig,
}

impl SecurityChecker {
    /// A checker that refuses the given sites.
    pub fn new(blocked_sites: BlockedSitesConfig) -> (r: SecurityChecker)
        ensures
            r.blocked_sites == blocked_sites,
    {
        SecurityChecker { blocked_sites }
    }

    /// Checks typing into the element that `selector` names: a password field,
    /// else the first sensitive field pattern that the selector holds; case
    /// is ignored.
    pub fn check_type_action(&self, selector: &str, text: &str) -> (r: SensitiveActionDetection)
        ensures
            r@ == type_check_spec(lower_of(selector@)),
    {
        type_check_lowered(lowercase(selector).as_str())
    }

    /// Checks clicking the element that `selector` names: a button or a
    /// submit control whose selector holds a submission pattern; case is
    /// ignored.
    pub fn check_click_action(&self, selector: &str) -> (r: SensitiveActionDetection)
        ensures
            r@ == click_check_spec(lower_of(selector@)),
    {
        click_check_lowered(lowercase(selector).as_str())
    }

    /// Checks navigating to `url`: a blocked site, else a financial site,
    /// else a site with personal data.
    pub fn check_navigation(&self, url: &str) -> (r: SensitiveActionDetection)
        ensures
            r@ == navigation_check_spec(self.blocked_sites, url@),
    {
        if self.blocked_sites.is_blocked(url) {
            let reason = join2("Navigation to blocked site: ", url);
            return flagged(SensitiveActionType::BlockedSite, Severity::Critical, reason, None);
        }
        let lower = lowercase(url);
        let l = chars_of(lower.as_str());
        if find_first_hit(&l, &financial_patterns_list()).is_some() {
            return flagged(
                SensitiveActionType::FinancialSite,
                Severity::High,
                "Navigating to financial/banking site".to_owned(),
                None,
            );
        }
        if find_first_hit(&l, &personal_data_patterns_list()).is_some() {
            return flagged(
                SensitiveActionType::PersonalData,
                Severity::High,
                "Navigating to site with personal/health data".to_owned(),
                None,
            );
        }
        SensitiveActionDetection::default()
    }

    /// Checks uploading the files at `paths`, in order.
    pub fn check_upload(&self, paths: &Vec<String>) -> (r: SensitiveActionDetection)
        ensures
            r@ == upload_check_spec(crate::text::views(paths@)),
    {
        let n = paths.len();
        let mut i: usize = 0;
        assert(crate::text::views(paths@).skip(0) =~= crate::text::views(paths@));
        while i < n
            invariant
                n == paths@.len(),
                i <= n,
                upload_check_spec(crate::text::views(paths@)) == upload_check_spec(
                    crate::text::views(paths@).skip(i as int),
                ),
            decreases n - i,
        {
            let ghost rest = crate::text::views(paths@).skip(i as int);
            proof {
                assert(rest[0] == paths@[i as int]@);
                assert(rest.drop_first() =~= crate::text::views(paths@).skip(i + 1));
            }
            match check_file(paths[i].as_str()) {
                Some(d) => {
                    return d;
                },
                None => {},
            }
            i += 1;
        }
        assert(crate::text::views(paths@).skip(n as int) =~= Seq::<Seq<char>>::empty());
        SensitiveActionDetection::default()
    }
}

/// The name of a kind of detection.
pub open spec fn action_type_name(t: SensitiveActionType) -> Seq<char> {
    match t {
        SensitiveActionType::PasswordInput => "PasswordInput"@,
        SensitiveActionType::SensitiveFieldInput => "SensitiveFieldInput"@,
        SensitiveActionType::PaymentSubmission => "PaymentSubmission"@,
        SensitiveActionType::LoginSubmission => "LoginSubmission"@,
        SensitiveActionType::FileUpload => "FileUpload"@,
        SensitiveActionType::FinancialSite => "FinancialSite"@,
        SensitiveActionType::BlockedSite => "BlockedSite"@,
        SensitiveActionType::PersonalData => "PersonalData"@,
    }
}

impl SensitiveActionType {
    /// The variant's name.
    pub fn name(&self) -> (r: &'static str)
        ensures
            r@ == action_type_name(*self),
    {
        match self {
            SensitiveActionType::PasswordInput => "PasswordInput",
            SensitiveActionType::SensitiveFieldInput => "SensitiveFieldInput",
            SensitiveActionType::PaymentSubmission => "PaymentSubmission",
            SensitiveActionType::LoginSubmission => "LoginSubmission",
            SensitiveActionType::FileUpload => "FileUpload",
            SensitiveActionType::FinancialSite => "FinancialSite",
            SensitiveActionType::BlockedSite => "BlockedSite",
            SensitiveActionType::PersonalData => "PersonalData",
        }
    }
}

/// The name of a severity.
pub open spec fn severity_name(s: Severity) -> Seq<char> {
    match s {
        Severity::Low => "Low"@,
        Severity::Medium => "Medium"@,
        Severity::High => "High"@,
        Severity::Critical => "Critical"@,
    }
}

/// The sign that heads a warning of a severity.
pub open spec fn severity_icon(s: Severity) -> Seq<char> {
    match s {
        Severity::Low => "\u{2139}"@,
        Severity::Medium => "\u{26a0}"@,
        Severity::High => "\u{26a0}\u{fe0f}"@,
        Severity::Critical => "\u{1f6a8}"@,
    }
}

impl Severity {
    /// The variant's name.
    pub fn name(&self) -> (r: &'static str)
        ensures
            r@ == severity_name(*self),
    {
        match self {
            Severity::Low => "Low",
            Severity::Medium => "Medium",
            Severity::High => "High",
            Severity::Critical => "Critical",
        }
    }

    /// The sign that heads a warning of this severity.
    pub fn icon(&self) -> (r: &'static str)
        ensures
            r@ == severity_icon(*self),
    {
        match self {
            Severity::Low => "\u{2139}",
            Severity::Medium => "\u{26a0}",
            Severity::High => "\u{26a0}\u{fe0f}",
            Severity::Critical => "\u{1f6a8}",
        }
    }
}

/// The warning shown for a detection; empty when nothing was detected.
pub open spec fn warning_text(d: DetectionView) -> Seq<char> {
    if !d.detected {
        Seq::empty()
    } else {
        severity_icon(d.severity) + " SECURITY WARNING: "@ + match d.reason {
            Some(r) => r,
            None => "Sensitive action detected"@,
        } + "\n"@ + match d.action_type {
            Some(t) => "   Type: "@ + action_type_name(t) + "\n"@,
            None => Seq::empty(),
        } + "   Severity: "@ + severity_name(d.severity) + "\n"@ + match d.element {
            Some(e) => "   Element: <"@ + e.tag + ">\n"@,
            None => Seq::empty(),
        }
    }
}

/// Renders the warning for a detection.
pub fn format_security_warning(detection: &SensitiveActionDetection) -> (r: String)
    ensures
        r@ == warning_text(detection@),
{
    if !detection.detected {
        return String::new();
    }
    let mut w = join2(detection.severity.icon(), " SECURITY WARNING: ");
    match &detection.reason {
        Some(r) => w.append(r.as_str()),
        None => w.append("Sensitive action detected"),
    }
    w.append("\n");
    match &detection.action_type {
        Some(t) => {
            w.append("   Type: ");
            w.append(t.name());
            w.append("\n");
        },
        None => {},
    }
    w.append("   Severity: ");
    w.append(detection.severity.name());
    w.append("\n");
    match &detection.element_info {
        Some(e) => {
            w.append("   Element: <");
            w.append(e.tag.as_str());
            w.append(">\n");
        },
        None => {},
    }
    assert(w@ =~= warning_text(detection@));
    w
}

} // verus!
