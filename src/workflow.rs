//! Recorded workflows: their steps and parameters, and the substitution of
//! parameter values into step text.

use vstd::prelude::*;
use crate::text::{
    replace_all, replace_text, join2, has_sub, lower_of, lowercase, contains_text, text_eq,
    opt_text, digits_of, u64_text, joined, views, join_with, find_text, first_occurrence,
    eq_ignoring_ascii_case, text_eq_ignore_ascii_case,
};
use vstd::string::*;
use crate::session::{now_millis, Session};

verus! {

/// A parameter that a workflow takes.
#[derive(Debug, Clone)]
pub struct WorkflowParameter {
    pub name: String,
    pub description: Option<String>,
    pub default: Option<String>,
    pub required: bool,
    /// `text`, `password`, `number`, ...
    pub param_type: String,
}

/// A condition on the page for running a step.
#[derive(Debug, Clone)]
pub struct StepCondition {
    pub selector_exists: Option<String>,
    pub selector_not_exists: Option<String>,
    pub text_contains: Option<String>,
    pub url_contains: Option<String>,
}

/// One step of a workflow.
#[derive(Debug, Clone)]
pub struct WorkflowStep {
    pub name: Option<String>,
    pub action: String,
    pub target: Option<String>,
    pub value: Option<String>,
    pub timeout_ms: Option<u64>,
    pub required: bool,
    pub retry_count: u32,
    pub delay_before_ms: Option<u64>,
    pub delay_after_ms: Option<u64>,
    pub condition: Option<StepCondition>,
    pub screenshot_after: bool,
}

/// The result of one step of a run.
#[derive(Debug, Clone)]
pub struct StepResult {
    pub index: usize,
    pub name: Option<String>,
    pub success: bool,
    pub duration_ms: u64,
    pub skipped: bool,
    pub retries: u32,
    pub error: Option<String>,
}

/// The result of a run.
#[derive(Debug, Clone)]
pub struct WorkflowResult {
    pub workflow_id: String,
    pub success: bool,
    pub duration_ms: u64,
    pub step_results: Vec<StepResult>,
    pub error: Option<String>,
    pub screenshots: Vec<String>,
}

/// The placeholder that stands for parameter `name`: `{{name}}`.
pub open spec fn placeholder(name: Seq<char>) -> Seq<char> {
    "{{"@ + name + "}}"@
}

/// The template with the placeholder of each parameter replaced by its
/// value, parameter after parameter.
pub open spec fn substituted(template: Seq<char>, params: Seq<(String, String)>) -> Seq<char>
    decreases params.len(),
{
    if params.len() == 0 {
        template
    } else {
        replace_all(
            substituted(template, params.drop_last()),
            placeholder(params.last().0@),
            params.last().1@,
        )
    }
}

/// Replaces each `{{name}}` in the template by the value of parameter `name`.
pub fn substitute_params(template: &str, params: &Vec<(String, String)>) -> (r: String)
    ensures
        r@ == substituted(template@, params@),
{
    let mut result = template.to_owned();
    let n = params.len();
    let mut i: usize = 0;
    while i < n
        invariant
            n == params@.len(),
            i <= n,
            result@ == substituted(template@, params@.take(i as int)),
        decreases n - i,
    {
        let mut key = join2("{{", params[i].0.as_str());
        key.append("}}");
        proof {
            reveal_strlit("{{");
            assert(key@.len() > 0);
            assert(params@.take(i + 1).drop_last() =~= params@.take(i as int));
        }
        result = replace_text(result.as_str(), key.as_str(), params[i].1.as_str());
        i += 1;
    }
    assert(params@.take(n as int) =~= params@);
    result
}

/// The parameter type unless given: free text.
pub fn default_param_type() -> (r: String)
    ensures
        r@ == "text"@,
{
    "text".to_owned()
}

/// A short workflow identifier: the clock in hex, cut to twelve characters.
pub fn uuid_simple() -> (r: String)
    ensures
        exists|nanos: u128| r@ == crate::interact::id_text(""@, nanos, 12),
{
    let nanos = match crate::interact::epoch_nanos() {
        Some(n) => n,
        None => 0,
    };
    crate::interact::id_from_nanos("", nanos, 12)
}

/// A recorded, replayable sequence of steps.
#[derive(Debug, Clone)]
pub struct Workflow {
    pub id: String,
    pub name: String,
    pub description: Option<String>,
    pub domain: Option<String>,
    pub parameters: Vec<WorkflowParameter>,
    pub steps: Vec<WorkflowStep>,
    pub tags: Vec<String>,
    /// In milliseconds since the epoch.
    pub created_at_ms: i64,
    pub modified_at_ms: i64,
    pub run_count: u32,
    pub last_run_ms: Option<i64>,
}

/// What the value of a string field of a JSON object is.
pub uninterp spec fn json_field_text(json: Seq<char>, key: Seq<char>) -> Option<Seq<char>>;

/// Relies on `serde_json::from_str`, `Value::get` and `Value::as_str`: the
/// string held under `key` when `json` is an object that has one there.
#[verifier::external_body]
fn json_string_field(json: &str, key: &str) -> (r: Option<String>)
    ensures
        opt_text(r) == json_field_text(json@, key@),
{
    serde_json::from_str::<serde_json::Value>(json)
        .ok()
        .and_then(|v| v.get(key).and_then(|f| f.as_str()).map(|t| t.to_string()))
}

/// The part of `s` before the first `p`; all of it when there is none.
pub open spec fn before_text(s: Seq<char>, p: Seq<char>) -> Seq<char> {
    match first_occurrence(s, p) {
        Some(i) => s.take(i),
        None => s,
    }
}

/// The site of an address: the part between the first `://` and the next,
/// up to its first `/`; none without a `://`.
pub open spec fn site_of(url: Seq<char>) -> Option<Seq<char>> {
    match first_occurrence(url, "://"@) {
        Some(i) => Some(
            crate::sites::before_char(before_text(url.skip(i + 3), "://"@), '/'),
        ),
        None => None,
    }
}

/// The site of an address.
pub fn site_from_url(url: &str) -> (r: Option<String>)
    ensures
        opt_text(r) == site_of(url@),
{
    proof {
        reveal_strlit("://");
    }
    match find_text(url, "://") {
        Some(i) => {
            let n = url.unicode_len();
            let rest = url.substring_char(i + 3, n);
            assert(rest@ =~= url@.skip(i + 3));
            let part = match find_text(rest, "://") {
                Some(j) => {
                    let p = rest.substring_char(0, j);
                    assert(p@ =~= rest@.take(j as int));
                    p
                },
                None => rest,
            };
            Some(crate::sites::cut_before(part, '/').to_owned())
        },
        None => None,
    }
}

/// The step that the empty workflow starts with.
pub open spec fn is_navigate_placeholder(s: WorkflowStep) -> bool {
    &&& opt_text(s.name) == Some("Navigate to site"@)
    &&& s.action@ == "navigate"@
    &&& opt_text(s.target) == Some("{{url}}"@)
    &&& s.value is None
    &&& s.timeout_ms == Some(10000u64)
    &&& s.required
    &&& s.retry_count == 0
    &&& s.delay_before_ms is None
    &&& s.delay_after_ms == Some(1000u64)
    &&& s.condition is None
    &&& !s.screenshot_after
}

/// The step that replays a recorded action.
pub open spec fn replays(step: WorkflowStep, a: crate::session::RecordedAction) -> bool {
    &&& opt_text(step.name) == Some(a.command@)
    &&& step.action@ == a.command@
    &&& step.target == a.selector
    &&& opt_text(step.value) == json_field_text(a.args@, "value"@)
    &&& step.timeout_ms == Some(5000u64)
    &&& step.required
    &&& step.retry_count == 0
    &&& step.delay_before_ms is None
    &&& step.delay_after_ms == Some(200u64)
    &&& step.condition is None
    &&& !step.screenshot_after
}

/// One of the workflow's tags equals `tag`, ignoring ASCII case.
pub open spec fn has_tag(w: Workflow, tag: Seq<char>) -> bool {
    exists|q: int| 0 <= q < w.tags@.len() && eq_ignoring_ascii_case(#[trigger] w.tags@[q]@, tag)
}

/// The workflow's domain holds `domain`, ignoring case.
pub open spec fn for_domain(w: Workflow, domain: Seq<char>) -> bool {
    match w.domain {
        Some(d) => has_sub(lower_of(d@), lower_of(domain)),
        None => false,
    }
}

/// Keeps the workflows that are known, by identifier.
pub struct WorkflowManager {
    pub workflows_dir: String,
    pub cache: Vec<Workflow>,
}

impl WorkflowManager {
    /// No two known workflows share an identifier.
    pub open spec fn wf(&self) -> bool {
        forall|i: int, j: int|
            0 <= i < j < self.cache@.len() ==> self.cache@[i].id@ != self.cache@[j].id@
    }

    /// A manager that knows no workflow yet.
    pub fn new(workflows_dir: String) -> (r: WorkflowManager)
        ensures
            r.workflows_dir == workflows_dir,
            r.cache@.len() == 0,
            r.wf(),
    {
        WorkflowManager { workflows_dir, cache: Vec::new() }
    }

    /// The workflow with this identifier, if known.
    pub fn get(&self, id: &str) -> (r: Option<&Workflow>)
        ensures
            match r {
                Some(w) => self.cache@.contains(*w) && w.id@ == id@,
                None => forall|i: int| 0 <= i < self.cache@.len() ==> (#[trigger] self.cache@[i]).id@ != id@,
            },
    {
        let n = self.cache.len();
        let mut i: usize = 0;
        while i < n
            invariant
                n == self.cache@.len(),
                i <= n,
                forall|j: int| 0 <= j < i ==> (#[trigger] self.cache@[j]).id@ != id@,
            decreases n - i,
        {
            if text_eq(self.cache[i].id.as_str(), id) {
                assert(self.cache@.contains(self.cache@[i as int]));
                return Some(&self.cache[i]);
            }
            i += 1;
        }
        None
    }

    /// The workflows whose name holds `name`, ignoring case, in the order
    /// they are kept.
    pub fn find_by_name(&self, name: &str) -> (r: Vec<&Workflow>)
        ensures
            r@.len() <= self.cache@.len(),
            forall|k: int| 0 <= k < r@.len() ==> self.cache@.contains(*r@[k]) && has_sub(
                lower_of(r@[k].name@),
                lower_of(name@),
            ),
            forall|i: int|
                0 <= i < self.cache@.len() && has_sub(
                    lower_of((#[trigger] self.cache@[i]).name@),
                    lower_of(name@),
                ) ==> r@.contains(&self.cache@[i]),
    {
        let wanted = lowercase(name);
        let n = self.cache.len();
        let mut out: Vec<&Workflow> = Vec::new();
        let mut i: usize = 0;
        while i < n
            invariant
                n == self.cache@.len(),
                i <= n,
                wanted@ == lower_of(name@),
                out@.len() <= i,
                forall|k: int| 0 <= k < out@.len() ==> self.cache@.contains(*out@[k]) && has_sub(
                    lower_of(out@[k].name@),
                    lower_of(name@),
                ),
                forall|j: int|
                    0 <= j < i && has_sub(
                        lower_of((#[trigger] self.cache@[j]).name@),
                        lower_of(name@),
                    ) ==> out@.contains(&self.cache@[j]),
            decreases n - i,
        {
            let w = &self.cache[i];
            if contains_text(lowercase(w.name.as_str()).as_str(), wanted.as_str()) {
                let ghost before = out@;
                out.push(w);
                proof {
                    assert(self.cache@.contains(self.cache@[i as int]));
                    assert forall|j: int|
                        0 <= j < i + 1 && has_sub(
                            lower_of((#[trigger] self.cache@[j]).name@),
                            lower_of(name@),
                        ) implies out@.contains(&self.cache@[j]) by {
                        if j < i {
                            let k = choose|k: int| 0 <= k < before.len() && before[k] == &self.cache@[j];
                            assert(out@[k] == before[k]);
                        } else {
                            assert(out@[before.len() as int] == &self.cache@[j]);
                        }
                    }
                }
            }
            i += 1;
        }
        out
    }

    /// The workflows that carry `tag`, ignoring ASCII case, in the order they
    /// are kept.
    pub fn list_by_tag(&self, tag: &str) -> (r: Vec<&Workflow>)
        ensures
            forall|k: int| 0 <= k < r@.len() ==> self.cache@.contains(*r@[k]) && has_tag(*r@[k], tag@),
            forall|i: int|
                0 <= i < self.cache@.len() && has_tag(#[trigger] self.cache@[i], tag@) ==> r@.contains(
                    &self.cache@[i],
                ),
    {
        let n = self.cache.len();
        let mut out: Vec<&Workflow> = Vec::new();
        let mut i: usize = 0;
        while i < n
            invariant
                n == self.cache@.len(),
                i <= n,
                forall|k: int| 0 <= k < out@.len() ==> self.cache@.contains(*out@[k]) && has_tag(*out@[k], tag@),
                forall|j: int| 0 <= j < i && has_tag(#[trigger] self.cache@[j], tag@) ==> out@.contains(&self.cache@[j]),
            decreases n - i,
        {
            let w = &self.cache[i];
            let m = w.tags.len();
            let mut t: usize = 0;
            let mut found = false;
            while t < m && !found
                invariant
                    m == w.tags@.len(),
                    t <= m,
                    found ==> has_tag(*w, tag@),
                    !found ==> forall|q: int| 0 <= q < t ==> !eq_ignoring_ascii_case(#[trigger] w.tags@[q]@, tag@),
                decreases m - t,
            {
                if text_eq_ignore_ascii_case(w.tags[t].as_str(), tag) {
                    found = true;
                }
                t += 1;
            }
            if found {
                let ghost before = out@;
                out.push(w);
                proof {
                    assert(self.cache@.contains(self.cache@[i as int]));
                    assert forall|j: int| 0 <= j < i + 1 && has_tag(#[trigger] self.cache@[j], tag@) implies out@.contains(&self.cache@[j]) by {
                        if j < i {
                            let k = choose|k: int| 0 <= k < before.len() && before[k] == &self.cache@[j];
                            assert(out@[k] == before[k]);
                        } else {
                            assert(out@[before.len() as int] == &self.cache@[j]);
                        }
                    }
                }
            } else {
                proof {
                    assert(!has_tag(self.cache@[i as int], tag@));
                }
            }
            i += 1;
        }
        out
    }

    /// The workflows whose domain holds `domain`, ignoring case, in the order
    /// they are kept.
    pub fn list_for_domain(&self, domain: &str) -> (r: Vec<&Workflow>)
        ensures
            forall|k: int| 0 <= k < r@.len() ==> self.cache@.contains(*r@[k]) && for_domain(*r@[k], domain@),
            forall|i: int|
                0 <= i < self.cache@.len() && for_domain(#[trigger] self.cache@[i], domain@) ==> r@.contains(
                    &self.cache@[i],
                ),
    {
        let wanted = lowercase(domain);
        let n = self.cache.len();
        let mut out: Vec<&Workflow> = Vec::new();
        let mut i: usize = 0;
        while i < n
            invariant
                n == self.cache@.len(),
                i <= n,
                wanted@ == lower_of(domain@),
                forall|k: int| 0 <= k < out@.len() ==> self.cache@.contains(*out@[k]) && for_domain(*out@[k], domain@),
                forall|j: int| 0 <= j < i && for_domain(#[trigger] self.cache@[j], domain@) ==> out@.contains(&self.cache@[j]),
            decreases n - i,
        {
            let w = &self.cache[i];
            let hit = match &w.domain {
                Some(d) => contains_text(lowercase(d.as_str()).as_str(), wanted.as_str()),
                None => false,
            };
            if hit {
                let ghost before = out@;
                out.push(w);
                proof {
                    assert(self.cache@.contains(self.cache@[i as int]));
                    assert forall|j: int| 0 <= j < i + 1 && for_domain(#[trigger] self.cache@[j], domain@) implies out@.contains(&self.cache@[j]) by {
                        if j < i {
                            let k = choose|k: int| 0 <= k < before.len() && before[k] == &self.cache@[j];
                            assert(out@[k] == before[k]);
                        } else {
                            assert(out@[before.len() as int] == &self.cache@[j]);
                        }
                    }
                }
            }
            i += 1;
        }
        out
    }

    /// A workflow to start from: one step that navigates to `{{url}}`.
    pub fn create_empty(name: &str) -> (r: Workflow)
        ensures
            r.name@ == name@,
            exists|nanos: u128| r.id@ == "workflow-"@ + crate::interact::id_text(""@, nanos, 12),
            r.description is None,
            r.domain is None,
            r.parameters@.len() == 0,
            r.steps@.len() == 1,
            is_navigate_placeholder(r.steps@[0]),
            r.tags@.len() == 0,
            r.created_at_ms == r.modified_at_ms,
            r.run_count == 0,
            r.last_run_ms is None,
    {
        let now = now_millis();
        let id = join2("workflow-", uuid_simple().as_str());
        let mut steps: Vec<WorkflowStep> = Vec::new();
        steps.push(
            WorkflowStep {
                name: Some("Navigate to site".to_owned()),
                action: "navigate".to_owned(),
                target: Some("{{url}}".to_owned()),
                value: None,
                timeout_ms: Some(10000),
                required: true,
                retry_count: 0,
                delay_before_ms: None,
                delay_after_ms: Some(1000),
                condition: None,
                screenshot_after: false,
            },
        );
        Workflow {
            id,
            name: name.to_owned(),
            description: None,
            domain: None,
            parameters: Vec::new(),
            steps,
            tags: Vec::new(),
            created_at_ms: now,
            modified_at_ms: now,
            run_count: 0,
            last_run_ms: None,
        }
    }

    /// A workflow that replays the actions of a session, one step each.
    pub fn from_session(session: &Session, name: &str) -> (r: Workflow)
        ensures
            r.name@ == name@,
            r.description == session.name,
            r.steps@.len() == session.actions@.len(),
            forall|k: int| 0 <= k < r.steps@.len() ==> replays(#[trigger] r.steps@[k], session.actions@[k]),
            match session.initial_url {
                Some(u) => match site_of(u@) {
                    Some(d) => opt_text(r.domain) == Some(d),
                    None => r.domain is None,
                },
                None => r.domain is None,
            },
            r.tags@.len() == 1,
            r.tags@[0]@ == "from-session"@,
            r.run_count == 0,
    {
        let now = now_millis();
        let n = session.actions.len();
        let mut steps: Vec<WorkflowStep> = Vec::new();
        let mut i: usize = 0;
        while i < n
            invariant
                n == session.actions@.len(),
                i <= n,
                steps@.len() == i,
                forall|k: int| 0 <= k < i ==> replays(#[trigger] steps@[k], session.actions@[k]),
            decreases n - i,
        {
            let a = &session.actions[i];
            let step = WorkflowStep {
                name: Some(a.command.clone()),
                action: a.command.clone(),
                target: a.selector.clone(),
                value: json_string_field(a.args.as_str(), "value"),
                timeout_ms: Some(5000),
                required: true,
                retry_count: 0,
                delay_before_ms: None,
                delay_after_ms: Some(200),
                condition: None,
                screenshot_after: false,
            };
            steps.push(step);
            i += 1;
        }
        let id_part = if session.id.unicode_len() >= 8 {
            session.id.as_str().substring_char(0, 8).to_owned()
        } else {
            session.id.clone()
        };
        let mut tags: Vec<String> = Vec::new();
        tags.push("from-session".to_owned());
        Workflow {
            id: join2("workflow-", id_part.as_str()),
            name: name.to_owned(),
            description: session.name.clone(),
            domain: match &session.initial_url {
                Some(u) => site_from_url(u.as_str()),
                None => None,
            },
            parameters: Vec::new(),
            steps,
            tags,
            created_at_ms: now,
            modified_at_ms: now,
            run_count: 0,
            last_run_ms: None,
        }
    }
}

/// The text, or `d` when there is none.
pub open spec fn text_or(v: Option<String>, d: Seq<char>) -> Seq<char> {
    match v {
        Some(x) => x@,
        None => d,
    }
}

/// The line that shows a parameter; a required one is starred.
pub open spec fn parameter_line(p: WorkflowParameter) -> Seq<char> {
    "    - "@ + p.name@ + (if p.required {
        "*"@
    } else {
        ""@
    }) + ": "@ + text_or(p.description, ""@) + " ("@ + p.param_type@ + ")\n"@
}

/// The lines of the parameters.
pub open spec fn parameter_lines(ps: Seq<WorkflowParameter>) -> Seq<char>
    decreases ps.len(),
{
    if ps.len() == 0 {
        Seq::empty()
    } else {
        parameter_lines(ps.drop_last()) + parameter_line(ps.last())
    }
}

/// The line that shows step number `number`: its name (or action) and target.
pub open spec fn step_line(number: nat, s: WorkflowStep) -> Seq<char> {
    "    "@ + digits_of(number) + ". "@ + text_or(s.name, s.action@) + " "@ + text_or(s.target, ""@)
        + "\n"@
}

/// The lines of the steps, numbered from 1.
pub open spec fn step_lines(ss: Seq<WorkflowStep>) -> Seq<char>
    decreases ss.len(),
{
    if ss.len() == 0 {
        Seq::empty()
    } else {
        step_lines(ss.drop_last()) + step_line(ss.len(), ss.last())
    }
}

/// The head of a workflow summary: name, identifier and what is known.
pub open spec fn workflow_head(w: Workflow) -> Seq<char> {
    "Workflow: "@ + w.name@ + " ("@ + w.id@ + ")\n"@ + match w.description {
        Some(d) => "  Description: "@ + d@ + "\n"@,
        None => Seq::empty(),
    } + match w.domain {
        Some(d) => "  Domain: "@ + d@ + "\n"@,
        None => Seq::empty(),
    } + if w.tags@.len() > 0 {
        "  Tags: "@ + joined(views(w.tags@), ", "@) + "\n"@
    } else {
        Seq::empty()
    }
}

/// A summary of a workflow, for people.
pub open spec fn workflow_text(w: Workflow) -> Seq<char> {
    workflow_head(w) + "  Steps: "@ + digits_of(w.steps@.len()) + "\n"@ + "  Run count: "@
        + digits_of(w.run_count as nat) + "\n"@ + (if w.parameters@.len() > 0 {
        "\n  Parameters:\n"@ + parameter_lines(w.parameters@)
    } else {
        Seq::empty()
    }) + "\n  Steps:\n"@ + step_lines(w.steps@)
}

fn format_parameter_lines(ps: &Vec<WorkflowParameter>) -> (r: String)
    ensures
        r@ == parameter_lines(ps@),
{
    let mut out = String::new();
    let n = ps.len();
    let mut i: usize = 0;
    while i < n
        invariant
            n == ps@.len(),
            i <= n,
            out@ == parameter_lines(ps@.take(i as int)),
        decreases n - i,
    {
        proof {
            assert(ps@.take(i + 1).drop_last() =~= ps@.take(i as int));
        }
        let p = &ps[i];
        let ghost before = out@;
        out.append("    - ");
        out.append(p.name.as_str());
        out.append(
            if p.required {
                "*"
            } else {
                ""
            },
        );
        out.append(": ");
        match &p.description {
            Some(d) => out.append(d.as_str()),
            None => out.append(""),
        }
        out.append(" (");
        out.append(p.param_type.as_str());
        out.append(")\n");
        assert(out@ =~= before + parameter_line(*p));
        i += 1;
    }
    assert(ps@.take(n as int) =~= ps@);
    out
}

fn format_step_lines(ss: &Vec<WorkflowStep>) -> (r: String)
    requires
        ss@.len() < usize::MAX,
    ensures
        r@ == step_lines(ss@),
{
    let mut out = String::new();
    let n = ss.len();
    let mut i: usize = 0;
    while i < n
        invariant
            n == ss@.len(),
            n < usize::MAX,
            i <= n,
            out@ == step_lines(ss@.take(i as int)),
        decreases n - i,
    {
        proof {
            assert(ss@.take(i + 1).drop_last() =~= ss@.take(i as int));
        }
        let s = &ss[i];
        let ghost before = out@;
        out.append("    ");
        out.append(u64_text((i + 1) as u64).as_str());
        out.append(". ");
        match &s.name {
            Some(nm) => out.append(nm.as_str()),
            None => out.append(s.action.as_str()),
        }
        out.append(" ");
        match &s.target {
            Some(t) => out.append(t.as_str()),
            None => out.append(""),
        }
        out.append("\n");
        assert(out@ =~= before + step_line((i + 1) as nat, *s));
        i += 1;
    }
    assert(ss@.take(n as int) =~= ss@);
    out
}

fn format_workflow_head(w: &Workflow) -> (r: String)
    ensures
        r@ == workflow_head(*w),
{
    let mut out = join2("Workflow: ", w.name.as_str());
    out.append(" (");
    out.append(w.id.as_str());
    out.append(")\n");
    match &w.description {
        Some(d) => {
            out.append("  Description: ");
            out.append(d.as_str());
            out.append("\n");
        },
        None => {},
    }
    match &w.domain {
        Some(d) => {
            out.append("  Domain: ");
            out.append(d.as_str());
            out.append("\n");
        },
        None => {},
    }
    if w.tags.len() > 0 {
        out.append("  Tags: ");
        out.append(join_with(&w.tags, ", ").as_str());
        out.append("\n");
    }
    out
}

/// Renders a summary of a workflow.
pub fn format_workflow(workflow: &Workflow) -> (r: String)
    requires
        workflow.steps@.len() < usize::MAX,
    ensures
        r@ == workflow_text(*workflow),
{
    let mut out = format_workflow_head(workflow);
    out.append("  Steps: ");
    out.append(u64_text(workflow.steps.len() as u64).as_str());
    out.append("\n");
    out.append("  Run count: ");
    out.append(u64_text(workflow.run_count as u64).as_str());
    out.append("\n");
    if workflow.parameters.len() > 0 {
        out.append("\n  Parameters:\n");
        out.append(format_parameter_lines(&workflow.parameters).as_str());
    }
    out.append("\n  Steps:\n");
    out.append(format_step_lines(&workflow.steps).as_str());
    out
}

/// The line that shows a workflow in a list.
pub open spec fn list_line(w: Workflow) -> Seq<char> {
    "  "@ + w.id@ + " - "@ + w.name@ + " ("@ + digits_of(w.steps@.len()) + " steps, "@ + text_or(
        w.domain,
        "-"@,
    ) + ")\n"@
}

/// The lines of a list of workflows.
pub open spec fn list_lines(ws: Seq<&Workflow>) -> Seq<char>
    decreases ws.len(),
{
    if ws.len() == 0 {
        Seq::empty()
    } else {
        list_lines(ws.drop_last()) + list_line(*ws.last())
    }
}

/// Renders a list of workflows, one line each.
pub fn format_workflow_list(workflows: &Vec<&Workflow>) -> (r: String)
    ensures
        r@ == list_lines(workflows@),
{
    let mut out = String::new();
    let n = workflows.len();
    let mut i: usize = 0;
    while i < n
        invariant
            n == workflows@.len(),
            i <= n,
            out@ == list_lines(workflows@.take(i as int)),
        decreases n - i,
    {
        proof {
            assert(workflows@.take(i + 1).drop_last() =~= workflows@.take(i as int));
        }
        let w = workflows[i];
        let ghost before = out@;
        out.append("  ");
        out.append(w.id.as_str());
        out.append(" - ");
        out.append(w.name.as_str());
        out.append(" (");
        out.append(u64_text(w.steps.len() as u64).as_str());
        out.append(" steps, ");
        match &w.domain {
            Some(d) => out.append(d.as_str()),
            None => out.append("-"),
        }
        out.append(")\n");
        assert(out@ =~= before + list_line(*w));
        i += 1;
    }
    assert(workflows@.take(n as int) =~= workflows@);
    out
}

} // verus!
