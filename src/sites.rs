//! Per-site instructions, looked up by the domain of the page's address.

use vstd::prelude::*;
use vstd::string::*;
use crate::text::{
    has_prefix, has_suffix, lower_of, lowercase, starts_with_text, ends_with_text, text_eq, join2,
    opt_text,
};

verus! {

/// One step of a scripted action.
#[derive(Debug, Clone)]
pub struct ActionStep {
    pub action: String,
    pub target: Option<String>,
    pub value: Option<String>,
    pub timeout_ms: Option<u64>,
    pub optional: bool,
    pub description: Option<String>,
}

/// How to log in on a site.
#[derive(Debug, Clone)]
pub struct LoginInstructions {
    pub url: Option<String>,
    pub username_selector: Option<String>,
    pub password_selector: Option<String>,
    pub submit_selector: Option<String>,
    pub success_indicator: Option<String>,
    pub failure_indicator: Option<String>,
    pub extra_steps: Vec<ActionStep>,
}

/// When a page of the site counts as ready.
#[derive(Debug, Clone)]
pub struct WaitCondition {
    pub selector: Option<String>,
    pub text: Option<String>,
    pub network_idle: bool,
    pub timeout_ms: Option<u64>,
}

/// How to answer the site's cookie banner.
#[derive(Debug, Clone)]
pub struct CookieConsentConfig {
    pub accept_selector: Option<String>,
    pub reject_selector: Option<String>,
    pub close_selector: Option<String>,
    /// `accept`, `reject` or `close`.
    pub action: String,
}

/// How the site shows a CAPTCHA.
#[derive(Debug, Clone)]
pub struct CaptchaConfig {
    pub pause_on_detect: bool,
    pub custom_indicators: Vec<String>,
    pub notes: Option<String>,
}

/// Timeouts of the site, in milliseconds.
#[derive(Debug, Clone, Default)]
pub struct TimeoutConfig {
    pub page_load_ms: Option<u64>,
    pub element_ms: Option<u64>,
    pub navigation_ms: Option<u64>,
    pub script_ms: Option<u64>,
}

/// The instructions for one domain, or for a pattern of domains (`*.example.com`).
#[derive(Debug, Clone)]
pub struct SiteInstructions {
    pub domain: String,
    pub description: Option<String>,
    pub login: Option<LoginInstructions>,
    /// Named selectors, in the order in which they were given; names are unique.
    pub selectors: Vec<(String, String)>,
    /// Steps to run before an action, by action name.
    pub before_actions: Vec<(String, Vec<ActionStep>)>,
    /// Steps to run after an action, by action name.
    pub after_actions: Vec<(String, Vec<ActionStep>)>,
    pub wait_ready: Option<WaitCondition>,
    pub cookie_consent: Option<CookieConsentConfig>,
    pub captcha: Option<CaptchaConfig>,
    pub timeouts: Option<TimeoutConfig>,
    pub notes: Vec<String>,
}

/// The cookie banner answer unless given.
pub fn default_cookie_action() -> (r: String)
    ensures
        r@ == "accept"@,
{
    "accept".to_owned()
}

/// The value of flags that are on unless given.
pub fn default_true() -> (r: bool)
    ensures
        r,
{
    true
}

/// A whitespace character, as Unicode's White_Space property lists them.
pub open spec fn is_white(c: char) -> bool {
    ('\u{9}' <= c && c <= '\u{d}') || c == ' ' || c == '\u{85}' || c == '\u{a0}' || c
        == '\u{1680}' || ('\u{2000}' <= c && c <= '\u{200a}') || c == '\u{2028}' || c
        == '\u{2029}' || c == '\u{202f}' || c == '\u{205f}' || c == '\u{3000}'
}

fn white(c: char) -> (r: bool)
    ensures
        r == is_white(c),
{
    ('\u{9}' <= c && c <= '\u{d}') || c == ' ' || c == '\u{85}' || c == '\u{a0}' || c
        == '\u{1680}' || ('\u{2000}' <= c && c <= '\u{200a}') || c == '\u{2028}' || c
        == '\u{2029}' || c == '\u{202f}' || c == '\u{205f}' || c == '\u{3000}'
}

/// `s` without its leading whitespace.
pub open spec fn trim_start_of(s: Seq<char>) -> Seq<char>
    decreases s.len(),
{
    if s.len() > 0 && is_white(s[0]) {
        trim_start_of(s.drop_first())
    } else {
        s
    }
}

/// `s` without its trailing whitespace.
pub open spec fn trim_end_of(s: Seq<char>) -> Seq<char>
    decreases s.len(),
{
    if s.len() > 0 && is_white(s.last()) {
        trim_end_of(s.drop_last())
    } else {
        s
    }
}

/// `s` without leading and trailing whitespace (what `str::trim` gives).
pub open spec fn trimmed_of(s: Seq<char>) -> Seq<char> {
    trim_end_of(trim_start_of(s))
}

/// The string without leading and trailing whitespace.
pub fn trim_text(s: &str) -> (r: &str)
    ensures
        r@ == trimmed_of(s@),
{
    let n = s.unicode_len();
    let mut i: usize = 0;
    assert(s@.skip(0) =~= s@);
    while i < n && white(s.get_char(i))
        invariant
            n == s@.len(),
            i <= n,
            trim_start_of(s@) == trim_start_of(s@.skip(i as int)),
        decreases n - i,
    {
        assert(s@.skip(i as int).drop_first() =~= s@.skip(i + 1));
        i += 1;
    }
    assert(trim_start_of(s@.skip(i as int)) == s@.skip(i as int));
    let mut j: usize = n;
    assert(s@.subrange(i as int, n as int) =~= s@.skip(i as int));
    while j > i && white(s.get_char(j - 1))
        invariant
            n == s@.len(),
            i <= j <= n,
            trim_end_of(s@.skip(i as int)) == trim_end_of(s@.subrange(i as int, j as int)),
        decreases j - i,
    {
        assert(s@.subrange(i as int, j as int).drop_last() =~= s@.subrange(i as int, j - 1));
        assert(s@.subrange(i as int, j as int).last() == s@[j - 1]);
        j -= 1;
    }
    s.substring_char(i, j)
}

/// The address without its `https://` or `http://` scheme.
pub open spec fn without_scheme(s: Seq<char>) -> Seq<char> {
    if has_prefix(s, "https://"@) {
        s.skip(8)
    } else if has_prefix(s, "http://"@) {
        s.skip(7)
    } else {
        s
    }
}

/// `k` is where `s` is cut before its first `c` (its length when there is none).
pub open spec fn is_cut(s: Seq<char>, c: char, k: int) -> bool {
    &&& 0 <= k <= s.len()
    &&& k < s.len() ==> s[k] == c
    &&& forall|j: int| 0 <= j < k ==> s[j] != c
}

/// The part of `s` before its first `c`.
pub open spec fn before_char(s: Seq<char>, c: char) -> Seq<char> {
    s.take(choose|k: int| is_cut(s, c, k))
}

proof fn cut_is_unique(s: Seq<char>, c: char, k: int)
    requires
        is_cut(s, c, k),
    ensures
        before_char(s, c) == s.take(k),
{
    let m = choose|k: int| is_cut(s, c, k);
    assert(is_cut(s, c, m));
    if m < k {
        assert(s[m] != c);
    } else if k < m {
        assert(s[k] != c);
    }
}

/// The part of `s` before its first `c`.
pub(crate) fn cut_before(s: &str, c: char) -> (r: &str)
    ensures
        r@ == before_char(s@, c),
{
    let n = s.unicode_len();
    let mut i: usize = 0;
    while i < n
        invariant
            n == s@.len(),
            i <= n,
            forall|j: int| 0 <= j < i ==> s@[j] != c,
        decreases n - i,
    {
        if s.get_char(i) == c {
            proof {
                cut_is_unique(s@, c, i as int);
            }
            return s.substring_char(0, i);
        }
        i += 1;
    }
    proof {
        cut_is_unique(s@, c, n as int);
    }
    s.substring_char(0, n)
}

/// The domain of an address: trimmed, without scheme, up to the first `/`,
/// up to the first `:`, lowercased.
pub open spec fn domain_of(url: Seq<char>) -> Seq<char> {
    lower_of(before_char(before_char(without_scheme(trimmed_of(url)), '/'), ':'))
}

/// The domain of an address (always found: an address without scheme or
/// path is taken as a domain).
pub fn extract_domain(url: &str) -> (r: Option<String>)
    ensures
        r is Some,
        r->Some_0@ == domain_of(url@),
{
    let t = trim_text(url);
    let n = t.unicode_len();
    let rest = if starts_with_text(t, "https://") {
        proof {
            reveal_strlit("https://");
        }
        t.substring_char(8, n)
    } else if starts_with_text(t, "http://") {
        proof {
            reveal_strlit("http://");
        }
        t.substring_char(7, n)
    } else {
        t
    };
    proof {
        if has_prefix(t@, "https://"@) {
            assert(rest@ =~= t@.skip(8));
        } else if has_prefix(t@, "http://"@) {
            assert(rest@ =~= t@.skip(7));
        }
    }
    let host = cut_before(cut_before(rest, '/'), ':');
    Some(lowercase(host))
}

/// `s` without its leading dots.
pub open spec fn without_leading_dots(s: Seq<char>) -> Seq<char>
    decreases s.len(),
{
    if s.len() > 0 && s[0] == '.' {
        without_leading_dots(s.drop_first())
    } else {
        s
    }
}

fn strip_leading_dots(s: &str) -> (r: &str)
    ensures
        r@ == without_leading_dots(s@),
{
    let n = s.unicode_len();
    let mut i: usize = 0;
    assert(s@.skip(0) =~= s@);
    while i < n && s.get_char(i) == '.'
        invariant
            n == s@.len(),
            i <= n,
            without_leading_dots(s@) == without_leading_dots(s@.skip(i as int)),
        decreases n - i,
    {
        assert(s@.skip(i as int).drop_first() =~= s@.skip(i + 1));
        i += 1;
    }
    let r = s.substring_char(i, n);
    assert(r@ =~= s@.skip(i as int));
    r
}

/// Whether a domain pattern covers a domain: `*.x` covers every domain that
/// ends with `x`, and `x` itself; any other pattern covers its own domain.
pub open spec fn pattern_covers(pattern: Seq<char>, domain: Seq<char>) -> bool {
    if has_prefix(pattern, "*."@) {
        has_suffix(domain, pattern.skip(2)) || domain == without_leading_dots(pattern.skip(2))
    } else {
        pattern == domain
    }
}

/// Whether a domain pattern covers a domain.
pub fn matches_domain_pattern(pattern: &str, domain: &str) -> (r: bool)
    ensures
        r == pattern_covers(pattern@, domain@),
{
    if starts_with_text(pattern, "*.") {
        proof {
            reveal_strlit("*.");
        }
        let suffix = pattern.substring_char(2, pattern.unicode_len());
        assert(suffix@ =~= pattern@.skip(2));
        ends_with_text(domain, suffix) || text_eq(domain, strip_leading_dots(suffix))
    } else {
        text_eq(pattern, domain)
    }
}

/// Holds the instructions of the known sites.
pub struct SiteInstructionsManager {
    pub sites_dir: String,
    pub cache: Vec<SiteInstructions>,
}

/// The domains of the known sites.
pub open spec fn domains(c: Seq<SiteInstructions>) -> Seq<Seq<char>> {
    c.map_values(|s: SiteInstructions| s.domain@)
}

impl SiteInstructionsManager {
    /// No two known sites share a domain.
    pub open spec fn wf(&self) -> bool {
        forall|i: int, j: int|
            0 <= i < j < self.cache@.len() ==> self.cache@[i].domain@ != self.cache@[j].domain@
    }

    /// A manager that knows no site yet.
    pub fn new(sites_dir: String) -> (r: SiteInstructionsManager)
        ensures
            r.sites_dir == sites_dir,
            r.cache@.len() == 0,
            r.wf(),
    {
        SiteInstructionsManager { sites_dir, cache: Vec::new() }
    }

    /// Adds the instructions of a site, replacing those for the same domain.
    pub fn insert(&mut self, instructions: SiteInstructions)
        requires
            old(self).wf(),
        ensures
            final(self).wf(),
            final(self).sites_dir == old(self).sites_dir,
            exists|i: int|
                0 <= i < final(self).cache@.len() && #[trigger] final(self).cache@[i]
                    == instructions,
            forall|i: int|
                0 <= i < old(self).cache@.len() && old(self).cache@[i].domain@
                    != instructions.domain@ ==> final(self).cache@.contains(
                    #[trigger] old(self).cache@[i],
                ),
            forall|i: int|
                0 <= i < final(self).cache@.len() ==> #[trigger] final(self).cache@[i]
                    == instructions || old(self).cache@.contains(final(self).cache@[i]),
    {
        let n = self.cache.len();
        let mut i: usize = 0;
        while i < n
            invariant
                *self == *old(self),
                old(self).wf(),
                n == self.cache@.len(),
                i <= n,
                forall|j: int|
                    0 <= j < i ==> (#[trigger] self.cache@[j]).domain@ != instructions.domain@,
            decreases n - i,
        {
            if text_eq(self.cache[i].domain.as_str(), instructions.domain.as_str()) {
                let ghost before = self.cache@;
                self.cache.set(i, instructions);
                proof {
                    assert forall|a: int|
                        0 <= a < before.len() && before[a].domain@
                            != instructions.domain@ implies self.cache@.contains(
                        #[trigger] before[a],
                    ) by {
                        assert(self.cache@[a] == before[a]);
                    }
                    assert forall|a: int| 0 <= a < self.cache@.len() implies #[trigger] self.cache@[a]
                        == instructions || before.contains(self.cache@[a]) by {
                        if a != i {
                            assert(before[a] == self.cache@[a]);
                        }
                    }
                    assert(self.cache@[i as int] == instructions);
                }
                return;
            }
            i += 1;
        }
        let ghost before = self.cache@;
        self.cache.push(instructions);
        proof {
            assert forall|a: int|
                0 <= a < before.len() && before[a].domain@
                    != instructions.domain@ implies self.cache@.contains(#[trigger] before[a]) by {
                assert(self.cache@[a] == before[a]);
            }
            assert forall|a: int| 0 <= a < self.cache@.len() implies #[trigger] self.cache@[a]
                == instructions || before.contains(self.cache@[a]) by {
                if a < before.len() {
                    assert(before[a] == self.cache@[a]);
                }
            }
            assert(self.cache@[n as int] == instructions);
        }
    }

    /// The instructions for the domain of `url`: those for that very domain,
    /// else those of a pattern that covers it.
    pub fn get_for_url(&self, url: &str) -> (r: Option<&SiteInstructions>)
        ensures
            match r {
                Some(s) => self.cache@.contains(*s) && (s.domain@ == domain_of(url@) || (
                forall|i: int|
                    0 <= i < self.cache@.len() ==> (#[trigger] self.cache@[i]).domain@ != domain_of(
                        url@,
                    )) && pattern_covers(s.domain@, domain_of(url@))),
                None => forall|i: int|
                    0 <= i < self.cache@.len() ==> (#[trigger] self.cache@[i]).domain@ != domain_of(
                        url@,
                    ) && !pattern_covers(self.cache@[i].domain@, domain_of(url@)),
            },
    {
        let domain = match extract_domain(url) {
            Some(d) => d,
            None => {
                return None;
            },
        };
        let n = self.cache.len();
        let mut i: usize = 0;
        while i < n
            invariant
                n == self.cache@.len(),
                i <= n,
                domain@ == domain_of(url@),
                forall|j: int| 0 <= j < i ==> (#[trigger] self.cache@[j]).domain@ != domain@,
            decreases n - i,
        {
            if text_eq(self.cache[i].domain.as_str(), domain.as_str()) {
                assert(self.cache@.contains(self.cache@[i as int]));
                return Some(&self.cache[i]);
            }
            i += 1;
        }
        let mut k: usize = 0;
        while k < n
            invariant
                n == self.cache@.len(),
                k <= n,
                domain@ == domain_of(url@),
                forall|j: int| 0 <= j < n ==> (#[trigger] self.cache@[j]).domain@ != domain@,
                forall|j: int|
                    0 <= j < k ==> !pattern_covers((#[trigger] self.cache@[j]).domain@, domain@),
            decreases n - k,
        {
            if matches_domain_pattern(self.cache[k].domain.as_str(), domain.as_str()) {
                assert(self.cache@.contains(self.cache@[k as int]));
                return Some(&self.cache[k]);
            }
            k += 1;
        }
        None
    }

    /// The known sites, in the order in which they were added.
    pub fn list(&self) -> (r: Vec<&SiteInstructions>)
        ensures
            r@.len() == self.cache@.len(),
            forall|i: int| 0 <= i < r@.len() ==> *r@[i] == self.cache@[i],
    {
        let n = self.cache.len();
        let mut v: Vec<&SiteInstructions> = Vec::new();
        let mut i: usize = 0;
        while i < n
            invariant
                n == self.cache@.len(),
                i <= n,
                v@.len() == i,
                forall|j: int| 0 <= j < i ==> *v@[j] == self.cache@[j],
            decreases n - i,
        {
            v.push(&self.cache[i]);
            i += 1;
        }
        v
    }

    /// A starting point for the instructions of a new site.
    pub fn create_template(domain: &str) -> (r: SiteInstructions)
        ensures
            r.domain@ == domain@,
            opt_text(r.description) == Some("Custom instructions for "@ + domain@),
            r.login is Some,
            opt_text(r.login->Some_0.url) == Some("/login"@),
            r.selectors@.len() == 2,
            r.selectors@[0].0@ == "search"@,
            r.selectors@[1].0@ == "submit"@,
            r.before_actions@.len() == 0,
            r.after_actions@.len() == 0,
            r.wait_ready is Some,
            opt_text(r.wait_ready->Some_0.selector) == Some("body"@),
            r.wait_ready->Some_0.timeout_ms == Some(5000u64),
            r.cookie_consent is Some,
            r.cookie_consent->Some_0.action@ == "accept"@,
            r.captcha is None,
            r.timeouts is None,
            r.notes@.len() == 1,
    {
        let login = LoginInstructions {
            url: Some("/login".to_owned()),
            username_selector: Some("#username, #email, [name='email']".to_owned()),
            password_selector: Some("#password, [type='password']".to_owned()),
            submit_selector: Some("[type='submit'], button.login".to_owned()),
            success_indicator: Some(".dashboard, .welcome".to_owned()),
            failure_indicator: Some(".error, .alert-danger".to_owned()),
            extra_steps: Vec::new(),
        };
        let mut selectors: Vec<(String, String)> = Vec::new();
        selectors.push(("search".to_owned(), "#search, [name='q']".to_owned()));
        selectors.push(("submit".to_owned(), "[type='submit']".to_owned()));
        let wait_ready = WaitCondition {
            selector: Some("body".to_owned()),
            text: None,
            network_idle: false,
            timeout_ms: Some(5000),
        };
        let cookie = CookieConsentConfig {
            accept_selector: Some("[id*='accept'], [class*='accept'], .cookie-accept".to_owned()),
            reject_selector: Some("[id*='reject'], [class*='reject'], .cookie-reject".to_owned()),
            close_selector: Some(".cookie-close, .cookie-dismiss".to_owned()),
            action: "accept".to_owned(),
        };
        let mut notes: Vec<String> = Vec::new();
        notes.push("Add custom notes about this site here".to_owned());
        SiteInstructions {
            domain: domain.to_owned(),
            description: Some(join2("Custom instructions for ", domain)),
            login: Some(login),
            selectors,
            before_actions: Vec::new(),
            after_actions: Vec::new(),
            wait_ready: Some(wait_ready),
            cookie_consent: Some(cookie),
            captcha: None,
            timeouts: None,
            notes,
        }
    }
}

/// One line per named selector.
pub open spec fn selector_lines(s: Seq<(String, String)>) -> Seq<char>
    decreases s.len(),
{
    if s.len() == 0 {
        Seq::empty()
    } else {
        selector_lines(s.drop_last()) + "    "@ + s.last().0@ + ": "@ + s.last().1@ + "\n"@
    }
}

/// One line per note.
pub open spec fn note_lines(n: Seq<String>) -> Seq<char>
    decreases n.len(),
{
    if n.len() == 0 {
        Seq::empty()
    } else {
        note_lines(n.drop_last()) + "    - "@ + n.last()@ + "\n"@
    }
}

/// A labelled line when the value is there, nothing otherwise.
pub open spec fn opt_line(label: Seq<char>, v: Option<String>) -> Seq<char> {
    match v {
        Some(x) => label + x@ + "\n"@,
        None => Seq::empty(),
    }
}

/// The login part of a summary.
pub open spec fn login_part(l: Option<LoginInstructions>) -> Seq<char> {
    match l {
        Some(l) => "\n  Login Configuration:\n"@ + opt_line("    URL: "@, l.url) + opt_line(
            "    Username: "@,
            l.username_selector,
        ) + opt_line("    Password: "@, l.password_selector),
        None => Seq::empty(),
    }
}

/// The cookie part of a summary.
pub open spec fn cookie_part(c: Option<CookieConsentConfig>) -> Seq<char> {
    match c {
        Some(c) => "\n  Cookie Consent:\n"@ + "    Action: "@ + c.action@ + "\n"@ + opt_line(
            "    Accept: "@,
            c.accept_selector,
        ),
        None => Seq::empty(),
    }
}

/// A summary of a site's instructions, for people.
pub open spec fn instructions_text(i: SiteInstructions) -> Seq<char> {
    "Site: "@ + i.domain@ + "\n"@ + opt_line("  Description: "@, i.description) + login_part(i.login)
        + (if i.selectors@.len() > 0 {
        "\n  Custom Selectors:\n"@ + selector_lines(i.selectors@)
    } else {
        Seq::empty()
    }) + cookie_part(i.cookie_consent) + (if i.notes@.len() > 0 {
        "\n  Notes:\n"@ + note_lines(i.notes@)
    } else {
        Seq::empty()
    })
}

fn format_opt_line(label: &str, v: &Option<String>) -> (r: String)
    ensures
        r@ == opt_line(label@, *v),
{
    match v {
        Some(x) => {
            let mut s = join2(label, x.as_str());
            s.append("\n");
            s
        },
        None => String::new(),
    }
}

fn format_selector_lines(s: &Vec<(String, String)>) -> (r: String)
    ensures
        r@ == selector_lines(s@),
{
    let mut out = String::new();
    let n = s.len();
    let mut i: usize = 0;
    while i < n
        invariant
            n == s@.len(),
            i <= n,
            out@ == selector_lines(s@.take(i as int)),
        decreases n - i,
    {
        proof {
            assert(s@.take(i + 1).drop_last() =~= s@.take(i as int));
        }
        out.append("    ");
        out.append(s[i].0.as_str());
        out.append(": ");
        out.append(s[i].1.as_str());
        out.append("\n");
        i += 1;
    }
    assert(s@.take(n as int) =~= s@);
    out
}

fn format_note_lines(notes: &Vec<String>) -> (r: String)
    ensures
        r@ == note_lines(notes@),
{
    let mut out = String::new();
    let n = notes.len();
    let mut i: usize = 0;
    while i < n
        invariant
            n == notes@.len(),
            i <= n,
            out@ == note_lines(notes@.take(i as int)),
        decreases n - i,
    {
        proof {
            assert(notes@.take(i + 1).drop_last() =~= notes@.take(i as int));
        }
        out.append("    - ");
        out.append(notes[i].as_str());
        out.append("\n");
        i += 1;
    }
    assert(notes@.take(n as int) =~= notes@);
    out
}

fn format_login_part(l: &Option<LoginInstructions>) -> (r: String)
    ensures
        r@ == login_part(*l),
{
    match l {
        Some(l) => {
            let mut out = "\n  Login Configuration:\n".to_owned();
            out.append(format_opt_line("    URL: ", &l.url).as_str());
            out.append(format_opt_line("    Username: ", &l.username_selector).as_str());
            out.append(format_opt_line("    Password: ", &l.password_selector).as_str());
            out
        },
        None => String::new(),
    }
}

fn format_cookie_part(c: &Option<CookieConsentConfig>) -> (r: String)
    ensures
        r@ == cookie_part(*c),
{
    match c {
        Some(c) => {
            let mut out = "\n  Cookie Consent:\n".to_owned();
            out.append("    Action: ");
            out.append(c.action.as_str());
            out.append("\n");
            out.append(format_opt_line("    Accept: ", &c.accept_selector).as_str());
            out
        },
        None => String::new(),
    }
}

/// Renders a summary of a site's instructions.
pub fn format_instructions(instructions: &SiteInstructions) -> (r: String)
    ensures
        r@ == instructions_text(*instructions),
{
    let mut out = join2("Site: ", instructions.domain.as_str());
    out.append("\n");
    out.append(format_opt_line("  Description: ", &instructions.description).as_str());
    out.append(format_login_part(&instructions.login).as_str());
    if instructions.selectors.len() > 0 {
        out.append("\n  Custom Selectors:\n");
        out.append(format_selector_lines(&instructions.selectors).as_str());
    }
    out.append(format_cookie_part(&instructions.cookie_consent).as_str());
    if instructions.notes.len() > 0 {
        out.append("\n  Notes:\n");
        out.append(format_note_lines(&instructions.notes).as_str());
    }
    assert(out@ =~= instructions_text(*instructions));
    out
}

} // verus!
