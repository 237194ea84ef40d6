//! Recorded sessions: the actions taken, in order, and what they add up to.

use vstd::prelude::*;
use crate::recording::{ActionStatus, SessionMetadata, SessionStatus};
use crate::text::{padded_hex, u128_hex_padded, text_eq, join2, digits_of, u64_text};
use crate::recording::{utc_date_text, utc_date};

verus! {

/// The current time in milliseconds since the epoch; 0 when the clock is
/// set before it.
pub fn now_millis() -> (r: i64) {
    match crate::interact::epoch_nanos() {
        Some(n) => {
            let ms = n / 1_000_000;
            if ms > i64::MAX as u128 {
                i64::MAX
            } else {
                ms as i64
            }
        },
        None => 0,
    }
}

/// One action of a session.
#[derive(Debug, Clone)]
pub struct RecordedAction {
    /// When it was taken, in milliseconds since the epoch.
    pub timestamp_ms: i64,
    pub duration_ms: u64,
    pub command: String,
    /// The arguments, as JSON text.
    pub args: String,
    pub status: ActionStatus,
    pub screenshot: Option<String>,
    pub error: Option<String>,
    pub page_url: Option<String>,
    pub selector: Option<String>,
}

/// A recording of actions.
#[derive(Debug, Clone)]
pub struct Session {
    pub id: String,
    pub name: Option<String>,
    /// When it began, in milliseconds since the epoch.
    pub started_at_ms: i64,
    pub ended_at_ms: Option<i64>,
    pub initial_url: Option<String>,
    pub actions: Vec<RecordedAction>,
    pub status: SessionStatus,
    pub metadata: SessionMetadata,
}

/// How many actions have the given outcome.
pub open spec fn count_status(a: Seq<RecordedAction>, s: ActionStatus) -> nat
    decreases a.len(),
{
    if a.len() == 0 {
        0
    } else {
        count_status(a.drop_last(), s) + if a.last().status == s {
            1nat
        } else {
            0nat
        }
    }
}

/// The durations of the actions, added up.
pub open spec fn duration_sum(a: Seq<RecordedAction>) -> nat
    decreases a.len(),
{
    if a.len() == 0 {
        0
    } else {
        duration_sum(a.drop_last()) + a.last().duration_ms as nat
    }
}

/// How many actions ran the command `c`.
pub open spec fn command_count(a: Seq<RecordedAction>, c: Seq<char>) -> nat
    decreases a.len(),
{
    if a.len() == 0 {
        0
    } else {
        command_count(a.drop_last(), c) + if a.last().command@ == c {
            1nat
        } else {
            0nat
        }
    }
}

/// A tally of commands: one entry per distinct command of the actions, with
/// its number of actions.
pub open spec fn is_tally(t: Seq<(String, usize)>, a: Seq<RecordedAction>) -> bool {
    &&& forall|i: int, j: int| 0 <= i < j < t.len() ==> t[i].0@ != t[j].0@
    &&& forall|i: int| 0 <= i < t.len() ==> t[i].1 == command_count(a, #[trigger] t[i].0@)
    &&& forall|k: int|
        0 <= k < a.len() ==> exists|i: int| 0 <= i < t.len() && t[i].0@ == (#[trigger] a[k]).command@
}

proof fn count_status_bound(a: Seq<RecordedAction>, s: ActionStatus)
    ensures
        count_status(a, s) <= a.len(),
    decreases a.len(),
{
    if a.len() > 0 {
        count_status_bound(a.drop_last(), s);
    }
}

proof fn command_count_bound(a: Seq<RecordedAction>, c: Seq<char>)
    ensures
        command_count(a, c) <= a.len(),
    decreases a.len(),
{
    if a.len() > 0 {
        command_count_bound(a.drop_last(), c);
    }
}

proof fn command_count_absent(a: Seq<RecordedAction>, c: Seq<char>)
    requires
        forall|k: int| 0 <= k < a.len() ==> (#[trigger] a[k]).command@ != c,
    ensures
        command_count(a, c) == 0,
    decreases a.len(),
{
    if a.len() > 0 {
        assert(a.last().command@ != c);
        command_count_absent(a.drop_last(), c);
    }
}

/// A session identifier in the layout of a version 4 UUID, made from a
/// clock reading: its low 64 bits, then bits of them in the later groups.
pub open spec fn uuid_text(nanos: u128) -> Seq<char> {
    let ts = (nanos & 0xFFFF_FFFF_FFFF_FFFFu128) as u64;
    padded_hex(ts as nat, 16) + "-"@ + padded_hex(((ts >> 48u64) & 0xFFFFu64) as nat, 4) + "-4"@
        + padded_hex(((ts >> 36u64) & 0xFFFu64) as nat, 3) + "-"@ + padded_hex(
        (((ts >> 32u64) & 0x3FFFu64) | 0x8000u64) as nat,
        4,
    ) + "-"@ + padded_hex((ts & 0xFFFF_FFFF_FFFFu64) as nat, 12)
}

/// Builds a session identifier from a clock reading.
pub fn uuid_from_nanos(nanos: u128) -> (r: String)
    ensures
        r@ == uuid_text(nanos),
{
    let ts = (nanos & 0xFFFF_FFFF_FFFF_FFFF) as u64;
    let mut s = u128_hex_padded(ts as u128, 16);
    s.append("-");
    s.append(u128_hex_padded(((ts >> 48u64) & 0xFFFF) as u128, 4).as_str());
    s.append("-4");
    s.append(u128_hex_padded(((ts >> 36u64) & 0xFFF) as u128, 3).as_str());
    s.append("-");
    s.append(u128_hex_padded((((ts >> 32u64) & 0x3FFF) | 0x8000) as u128, 4).as_str());
    s.append("-");
    s.append(u128_hex_padded((ts & 0xFFFF_FFFF_FFFF) as u128, 12).as_str());
    s
}

/// A new session identifier.
pub fn uuid_v4() -> (r: String)
    ensures
        exists|nanos: u128| r@ == uuid_text(nanos),
{
    let nanos = match crate::interact::epoch_nanos() {
        Some(n) => n,
        None => 0,
    };
    uuid_from_nanos(nanos)
}

impl Session {
    /// A session that starts recording now, with no actions.
    pub fn new(name: Option<String>) -> (r: Session)
        ensures
            r.name == name,
            r.status == SessionStatus::Recording,
            r.actions@.len() == 0,
            r.ended_at_ms is None,
            r.initial_url is None,
            exists|nanos: u128| r.id@ == uuid_text(nanos),
    {
        Session {
            id: uuid_v4(),
            name,
            started_at_ms: now_millis(),
            ended_at_ms: None,
            initial_url: None,
            actions: Vec::new(),
            status: SessionStatus::Recording,
            metadata: SessionMetadata::default(),
        }
    }

    /// Appends an action.
    pub fn add_action(&mut self, action: RecordedAction)
        ensures
            final(self).actions@ == old(self).actions@.push(action),
            final(self).status == old(self).status,
            final(self).id == old(self).id,
            final(self).ended_at_ms == old(self).ended_at_ms,
    {
        self.actions.push(action);
    }

    /// Ends the session now, as completed.
    pub fn end(&mut self)
        ensures
            final(self).status == SessionStatus::Completed,
            final(self).ended_at_ms is Some,
            final(self).actions@ == old(self).actions@,
            final(self).id == old(self).id,
    {
        self.ended_at_ms = Some(now_millis());
        self.status = SessionStatus::Completed;
    }

    /// Pauses the recording.
    pub fn pause(&mut self)
        ensures
            final(self).status == SessionStatus::Paused,
            final(self).actions@ == old(self).actions@,
            final(self).ended_at_ms == old(self).ended_at_ms,
    {
        self.status = SessionStatus::Paused;
    }

    /// Resumes the recording.
    pub fn resume(&mut self)
        ensures
            final(self).status == SessionStatus::Recording,
            final(self).actions@ == old(self).actions@,
            final(self).ended_at_ms == old(self).ended_at_ms,
    {
        self.status = SessionStatus::Recording;
    }

    /// Ends the session now, as failed; the reason is kept on its last action.
    pub fn fail(&mut self, reason: &str)
        ensures
            final(self).status == SessionStatus::Failed,
            final(self).ended_at_ms is Some,
            final(self).actions@.len() == old(self).actions@.len(),
            forall|i: int|
                0 <= i < final(self).actions@.len() - 1 ==> final(self).actions@[i] == old(
                    self,
                ).actions@[i],
            final(self).actions@.len() > 0 ==> ({
                let last = final(self).actions@.last();
                let before = old(self).actions@.last();
                &&& last.error is Some
                &&& last.error->Some_0@ == reason@
                &&& last.command == before.command
                &&& last.status == before.status
                &&& last.duration_ms == before.duration_ms
            }),
    {
        self.status = SessionStatus::Failed;
        self.ended_at_ms = Some(now_millis());
        match self.actions.pop() {
            Some(mut last) => {
                last.error = Some(reason.to_owned());
                self.actions.push(last);
            },
            None => {},
        }
    }

    /// The durations of the actions, added up.
    pub fn total_duration_ms(&self) -> (r: u64)
        requires
            duration_sum(self.actions@) <= u64::MAX,
        ensures
            r == duration_sum(self.actions@),
    {
        let n = self.actions.len();
        let mut total: u64 = 0;
        let mut i: usize = 0;
        while i < n
            invariant
                n == self.actions@.len(),
                i <= n,
                duration_sum(self.actions@) <= u64::MAX,
                total == duration_sum(self.actions@.take(i as int)),
            decreases n - i,
        {
            proof {
                assert(self.actions@.take(i + 1).drop_last() =~= self.actions@.take(i as int));
                duration_prefix(self.actions@, i + 1);
            }
            total = total + self.actions[i].duration_ms;
            i += 1;
        }
        assert(self.actions@.take(n as int) =~= self.actions@);
        total
    }

    /// How many actions have the given outcome.
    pub fn count_with_status(&self, status: ActionStatus) -> (r: usize)
        ensures
            r == count_status(self.actions@, status),
    {
        let n = self.actions.len();
        let mut count: usize = 0;
        let mut i: usize = 0;
        while i < n
            invariant
                n == self.actions@.len(),
                i <= n,
                count == count_status(self.actions@.take(i as int), status),
            decreases n - i,
        {
            proof {
                assert(self.actions@.take(i + 1).drop_last() =~= self.actions@.take(i as int));
                count_status_bound(self.actions@.take(i as int), status);
            }
            if self.actions[i].status == status {
                count = count + 1;
            }
            i += 1;
        }
        assert(self.actions@.take(n as int) =~= self.actions@);
        count
    }

    /// One entry per distinct command, in order of first use, with how many
    /// actions ran it.
    pub fn action_counts(&self) -> (r: Vec<(String, usize)>)
        ensures
            is_tally(r@, self.actions@),
    {
        let n = self.actions.len();
        let mut counts: Vec<(String, usize)> = Vec::new();
        let mut k: usize = 0;
        while k < n
            invariant
                n == self.actions@.len(),
                k <= n,
                is_tally(counts@, self.actions@.take(k as int)),
            decreases n - k,
        {
            let ghost before = counts@;
            let ghost prev = self.actions@.take(k as int);
            let ghost next = self.actions@.take(k + 1);
            proof {
                assert(next.drop_last() =~= prev);
                assert(next.last() == self.actions@[k as int]);
            }
            let cmd = self.actions[k].command.as_str();
            let m = counts.len();
            let mut j: usize = 0;
            while j < m && !text_eq(counts[j].0.as_str(), cmd)
                invariant
                    m == counts@.len(),
                    j <= m,
                    forall|i: int| 0 <= i < j ==> counts@[i].0@ != cmd@,
                decreases m - j,
            {
                j += 1;
            }
            if j < m {
                let key = counts[j].0.clone();
                let c = counts[j].1;
                proof {
                    command_count_bound(prev, cmd@);
                }
                counts.set(j, (key, c + 1));
                proof {
                    assert forall|i: int| 0 <= i < counts@.len() implies counts@[i].1
                        == command_count(next, #[trigger] counts@[i].0@) by {
                        if i != j {
                            assert(before[i].0@ != before[j as int].0@);
                        }
                    }
                    assert forall|p: int| 0 <= p < next.len() implies exists|i: int|
                        0 <= i < counts@.len() && counts@[i].0@ == (#[trigger] next[p]).command@ by {
                        if p < k {
                            assert(prev[p] == next[p]);
                            let i = choose|i: int|
                                0 <= i < before.len() && before[i].0@ == prev[p].command@;
                            assert(counts@[i].0@ == before[i].0@);
                        } else {
                            assert(counts@[j as int].0@ == next[p].command@);
                        }
                    }
                }
            } else {
                proof {
                    assert forall|p: int| 0 <= p < prev.len() implies (#[trigger] prev[p]).command@
                        != cmd@ by {
                        let i = choose|i: int|
                            0 <= i < before.len() && before[i].0@ == prev[p].command@;
                    }
                    command_count_absent(prev, cmd@);
                }
                counts.push((cmd.to_owned(), 1));
                proof {
                    assert forall|i: int| 0 <= i < counts@.len() implies counts@[i].1
                        == command_count(next, #[trigger] counts@[i].0@) by {
                        if i < before.len() {
                            assert(counts@[i] == before[i]);
                        }
                    }
                    assert forall|p: int| 0 <= p < next.len() implies exists|i: int|
                        0 <= i < counts@.len() && counts@[i].0@ == (#[trigger] next[p]).command@ by {
                        if p < k {
                            assert(prev[p] == next[p]);
                            let i = choose|i: int|
                                0 <= i < before.len() && before[i].0@ == prev[p].command@;
                            assert(counts@[i] == before[i]);
                        } else {
                            assert(counts@[m as int].0@ == next[p].command@);
                        }
                    }
                }
            }
            k += 1;
        }
        assert(self.actions@.take(n as int) =~= self.actions@);
        counts
    }

    /// What the session adds up to.
    pub fn summary(&self) -> (r: SessionSummary)
        requires
            duration_sum(self.actions@) <= u64::MAX,
        ensures
            r.id == self.id,
            r.name == self.name,
            r.status == self.status,
            r.total_actions == self.actions@.len(),
            r.successful_actions == count_status(self.actions@, ActionStatus::Success),
            r.failed_actions == count_status(self.actions@, ActionStatus::Failed),
            r.total_duration_ms == duration_sum(self.actions@),
            is_tally(r.action_counts@, self.actions@),
            r.started_at_ms == self.started_at_ms,
            r.ended_at_ms == self.ended_at_ms,
    {
        SessionSummary {
            id: self.id.clone(),
            name: self.name.clone(),
            status: self.status,
            total_actions: self.actions.len(),
            successful_actions: self.count_with_status(ActionStatus::Success),
            failed_actions: self.count_with_status(ActionStatus::Failed),
            total_duration_ms: self.total_duration_ms(),
            action_counts: self.action_counts(),
            started_at_ms: self.started_at_ms,
            ended_at_ms: self.ended_at_ms,
        }
    }
}

proof fn duration_prefix(a: Seq<RecordedAction>, i: int)
    requires
        0 <= i <= a.len(),
    ensures
        duration_sum(a.take(i)) <= duration_sum(a),
    decreases a.len() - i,
{
    if i < a.len() {
        duration_prefix(a, i + 1);
        assert(a.take(i + 1).drop_last() =~= a.take(i));
    } else {
        assert(a.take(i) =~= a);
    }
}

/// What a session adds up to.
#[derive(Debug, Clone)]
pub struct SessionSummary {
    pub id: String,
    pub name: Option<String>,
    pub status: SessionStatus,
    pub total_actions: usize,
    pub successful_actions: usize,
    pub failed_actions: usize,
    pub total_duration_ms: u64,
    /// One entry per distinct command, in order of first use.
    pub action_counts: Vec<(String, usize)>,
    pub started_at_ms: i64,
    pub ended_at_ms: Option<i64>,
}

/// Builds the record of an action while it runs.
pub struct ActionBuilder {
    pub command: String,
    pub args: String,
    pub start_ms: i64,
    pub page_url: Option<String>,
    pub selector: Option<String>,
}

/// The time from `start_ms` to `now_ms`, or 0 if the clock went back.
pub open spec fn elapsed_between(start_ms: i64, now_ms: i64) -> u64 {
    if now_ms >= start_ms {
        (now_ms - start_ms) as u64
    } else {
        0
    }
}

impl ActionBuilder {
    /// Starts the record of a command, now, with empty arguments.
    pub fn new(command: &str) -> (r: ActionBuilder)
        ensures
            r.command@ == command@,
            r.args@ == "{}"@,
            r.page_url is None,
            r.selector is None,
    {
        ActionBuilder {
            command: command.to_owned(),
            args: "{}".to_owned(),
            start_ms: now_millis(),
            page_url: None,
            selector: None,
        }
    }

    /// Sets the arguments, as JSON text.
    pub fn with_args(self, args: String) -> (r: ActionBuilder)
        ensures
            r.args == args,
            r.command == self.command,
            r.start_ms == self.start_ms,
            r.page_url == self.page_url,
            r.selector == self.selector,
    {
        ActionBuilder { args, ..self }
    }

    /// Sets the address of the page.
    pub fn with_page_url(self, url: Option<String>) -> (r: ActionBuilder)
        ensures
            r.page_url == url,
            r.command == self.command,
            r.args == self.args,
            r.start_ms == self.start_ms,
            r.selector == self.selector,
    {
        ActionBuilder { page_url: url, ..self }
    }

    /// Sets the selector acted on.
    pub fn with_selector(self, selector: Option<String>) -> (r: ActionBuilder)
        ensures
            r.selector == selector,
            r.command == self.command,
            r.args == self.args,
            r.start_ms == self.start_ms,
            r.page_url == self.page_url,
    {
        ActionBuilder { selector, ..self }
    }

    fn finish(self, status: ActionStatus, error: Option<String>) -> (r: RecordedAction)
        ensures
            r.command == self.command,
            r.args == self.args,
            r.status == status,
            r.error == error,
            r.page_url == self.page_url,
            r.selector == self.selector,
            r.screenshot is None,
            r.duration_ms == elapsed_between(self.start_ms, r.timestamp_ms),
    {
        let now = now_millis();
        let duration_ms: u64 = if now >= self.start_ms {
            (now as i128 - self.start_ms as i128) as u64
        } else {
            0
        };
        RecordedAction {
            timestamp_ms: now,
            duration_ms,
            command: self.command,
            args: self.args,
            status,
            screenshot: None,
            error,
            page_url: self.page_url,
            selector: self.selector,
        }
    }

    /// The record of a command that succeeded.
    pub fn success(self) -> (r: RecordedAction)
        ensures
            r.command == self.command,
            r.status == ActionStatus::Success,
            r.error is None,
            r.page_url == self.page_url,
            r.selector == self.selector,
            r.duration_ms == elapsed_between(self.start_ms, r.timestamp_ms),
    {
        self.finish(ActionStatus::Success, None)
    }

    /// The record of a command that failed, with its error.
    pub fn failed(self, error: &str) -> (r: RecordedAction)
        ensures
            r.command == self.command,
            r.status == ActionStatus::Failed,
            r.error is Some,
            r.error->Some_0@ == error@,
            r.page_url == self.page_url,
            r.selector == self.selector,
            r.duration_ms == elapsed_between(self.start_ms, r.timestamp_ms),
    {
        self.finish(ActionStatus::Failed, Some(error.to_owned()))
    }
}

/// The command line that replays an action.
pub open spec fn action_command_text(a: RecordedAction) -> Seq<char> {
    "domguard interact "@ + a.command@ + match a.selector {
        Some(sel) => " \""@ + sel@ + "\""@,
        None => Seq::empty(),
    }
}

/// The command line that replays an action.
pub fn format_action_as_command(action: &RecordedAction) -> (r: String)
    ensures
        r@ == action_command_text(*action),
{
    let mut out = join2("domguard interact ", action.command.as_str());
    match &action.selector {
        Some(sel) => {
            out.append(" \"");
            out.append(sel.as_str());
            out.append("\"");
        },
        None => {},
    }
    out
}

/// The replay commands of the actions, one per line.
pub open spec fn command_lines(a: Seq<RecordedAction>) -> Seq<char>
    decreases a.len(),
{
    if a.len() == 0 {
        Seq::empty()
    } else {
        command_lines(a.drop_last()) + action_command_text(a.last()) + "\n"@
    }
}

fn format_command_lines(actions: &Vec<RecordedAction>) -> (r: String)
    ensures
        r@ == command_lines(actions@),
{
    let mut out = String::new();
    let n = actions.len();
    let mut i: usize = 0;
    while i < n
        invariant
            n == actions@.len(),
            i <= n,
            out@ == command_lines(actions@.take(i as int)),
        decreases n - i,
    {
        proof {
            assert(actions@.take(i + 1).drop_last() =~= actions@.take(i as int));
        }
        out.append(format_action_as_command(&actions[i]).as_str());
        out.append("\n");
        i += 1;
    }
    assert(actions@.take(n as int) =~= actions@);
    out
}

/// A shell script that replays a session.
pub open spec fn bash_export_text(s: Session) -> Seq<char> {
    "#!/bin/bash\n"@ + "# DOMGuard Session Export\n"@ + match s.name {
        Some(n) => "# Session: "@ + n@ + "\n"@,
        None => Seq::empty(),
    } + "# ID: "@ + s.id@ + "\n"@ + "# Recorded: "@ + utc_date_text(s.started_at_ms) + "\n"@
        + "\n"@ + "set -e  # Exit on error\n\n"@ + command_lines(s.actions@)
}

/// Writes a session as a shell script that replays it.
pub fn export_session_as_bash(session: &Session) -> (r: String)
    ensures
        r@ == bash_export_text(*session),
{
    let mut out = "#!/bin/bash\n".to_owned();
    out.append("# DOMGuard Session Export\n");
    match &session.name {
        Some(n) => {
            out.append("# Session: ");
            out.append(n.as_str());
            out.append("\n");
        },
        None => {},
    }
    out.append("# ID: ");
    out.append(session.id.as_str());
    out.append("\n");
    out.append("# Recorded: ");
    out.append(utc_date(session.started_at_ms).as_str());
    out.append("\n");
    out.append("\n");
    out.append("set -e  # Exit on error\n\n");
    out.append(format_command_lines(&session.actions).as_str());
    assert(out@ =~= bash_export_text(*session));
    out
}

/// The sign that shows an outcome.
pub open spec fn status_sign(s: ActionStatus) -> Seq<char> {
    match s {
        ActionStatus::Success => "\u{2705}"@,
        ActionStatus::Failed => "\u{274c}"@,
        ActionStatus::Skipped => "\u{23ed}\u{fe0f}"@,
        ActionStatus::Paused => "\u{23f8}\u{fe0f}"@,
    }
}

/// The entry of action number `number` in a report.
pub open spec fn action_entry(number: nat, a: RecordedAction) -> Seq<char> {
    digits_of(number) + ". "@ + status_sign(a.status) + " **"@ + a.command@ + "** ("@ + digits_of(
        a.duration_ms as nat,
    ) + "ms)\n"@ + match a.selector {
        Some(sel) => "   - Selector: `"@ + sel@ + "`\n"@,
        None => Seq::empty(),
    } + match a.error {
        Some(e) => "   - Error: "@ + e@ + "\n"@,
        None => Seq::empty(),
    } + "\n"@
}

/// The entries of the actions, numbered from 1.
pub open spec fn action_entries(a: Seq<RecordedAction>) -> Seq<char>
    decreases a.len(),
{
    if a.len() == 0 {
        Seq::empty()
    } else {
        action_entries(a.drop_last()) + action_entry(a.len(), a.last())
    }
}

fn format_action_entry(number: u64, a: &RecordedAction) -> (r: String)
    ensures
        r@ == action_entry(number as nat, *a),
{
    let sign = match a.status {
        ActionStatus::Success => "\u{2705}",
        ActionStatus::Failed => "\u{274c}",
        ActionStatus::Skipped => "\u{23ed}\u{fe0f}",
        ActionStatus::Paused => "\u{23f8}\u{fe0f}",
    };
    let mut out = u64_text(number);
    out.append(". ");
    out.append(sign);
    out.append(" **");
    out.append(a.command.as_str());
    out.append("** (");
    out.append(u64_text(a.duration_ms).as_str());
    out.append("ms)\n");
    match &a.selector {
        Some(sel) => {
            out.append("   - Selector: `");
            out.append(sel.as_str());
            out.append("`\n");
        },
        None => {},
    }
    match &a.error {
        Some(e) => {
            out.append("   - Error: ");
            out.append(e.as_str());
            out.append("\n");
        },
        None => {},
    }
    out.append("\n");
    assert(out@ =~= action_entry(number as nat, *a));
    out
}

/// A report of a session, in Markdown, with the commands that replay it.
pub open spec fn markdown_export_text(s: Session) -> Seq<char> {
    "# DOMGuard Session\n\n"@ + match s.name {
        Some(n) => "**Name:** "@ + n@ + "\n\n"@,
        None => Seq::empty(),
    } + "**ID:** `"@ + s.id@ + "`\n\n"@ + "**Recorded:** "@ + utc_date_text(s.started_at_ms)
        + "\n\n"@ + "**Total Actions:** "@ + digits_of(s.actions@.len()) + "\n\n"@
        + "## Actions\n\n"@ + action_entries(s.actions@) + "## Replay Commands\n\n```bash\n"@
        + command_lines(s.actions@) + "```\n"@
}

/// Writes a report of a session in Markdown.
pub fn export_session_as_markdown(session: &Session) -> (r: String)
    requires
        session.actions@.len() < u64::MAX,
    ensures
        r@ == markdown_export_text(*session),
{
    let mut entries = String::new();
    let n = session.actions.len();
    let mut i: usize = 0;
    while i < n
        invariant
            n == session.actions@.len(),
            n < u64::MAX,
            i <= n,
            entries@ == action_entries(session.actions@.take(i as int)),
        decreases n - i,
    {
        proof {
            assert(session.actions@.take(i + 1).drop_last() =~= session.actions@.take(i as int));
        }
        entries.append(format_action_entry((i + 1) as u64, &session.actions[i]).as_str());
        i += 1;
    }
    assert(session.actions@.take(n as int) =~= session.actions@);
    let mut out = "# DOMGuard Session\n\n".to_owned();
    match &session.name {
        Some(nm) => {
            out.append("**Name:** ");
            out.append(nm.as_str());
            out.append("\n\n");
        },
        None => {},
    }
    out.append("**ID:** `");
    out.append(session.id.as_str());
    out.append("`\n\n");
    out.append("**Recorded:** ");
    out.append(utc_date(session.started_at_ms).as_str());
    out.append("\n\n");
    out.append("**Total Actions:** ");
    out.append(u64_text(n as u64).as_str());
    out.append("\n\n");
    out.append("## Actions\n\n");
    out.append(entries.as_str());
    out.append("## Replay Commands\n\n```bash\n");
    out.append(format_command_lines(&session.actions).as_str());
    out.append("```\n");
    assert(out@ =~= markdown_export_text(*session));
    out
}

} // verus!
