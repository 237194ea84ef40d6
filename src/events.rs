//! Collection of console output within a deadline.
//!
//! Three feeds (structured log entries, console API calls, uncaught
//! exceptions) are merged into one list in the order in which their events
//! arrive. The caller races the feeds against the remaining time and asks
//! [`EventCollector::remaining`] before each round; each event it receives is
//! turned into a [`ConsoleEntry`] here and recorded.

use vstd::prelude::*;
use crate::text::{lower_of, lowercase, int_text, i64_text, join2, joined, views, join_with};

verus! {

/// How many stack frames an entry keeps.
pub const MAX_STACK_FRAMES: usize = 5;

/// One frame of a captured stack.
#[derive(Debug, Clone)]
pub struct StackFrame {
    pub function_name: String,
    pub url: String,
    pub line_number: i64,
    pub column_number: i64,
}

/// One captured console event.
#[derive(Debug, Clone)]
pub struct ConsoleEntry {
    pub level: String,
    pub source: String,
    pub text: String,
    pub url: Option<String>,
    pub line: Option<u32>,
    pub stack_trace: Option<String>,
    /// Milliseconds since the epoch, as reported by the page.
    pub timestamp_ms: i64,
}

/// The line that shows one stack frame.
pub open spec fn frame_text(f: StackFrame) -> Seq<char> {
    "    at "@ + f.function_name@ + " ("@ + f.url@ + ":"@ + int_text(f.line_number as int) + ":"@
        + int_text(f.column_number as int) + ")"@
}

/// The lines of the first frames, at most `MAX_STACK_FRAMES` of them.
pub open spec fn kept_frame_lines(frames: Seq<StackFrame>) -> Seq<Seq<char>> {
    let n = if frames.len() < MAX_STACK_FRAMES {
        frames.len() as int
    } else {
        MAX_STACK_FRAMES as int
    };
    Seq::new(n as nat, |k: int| frame_text(frames[k]))
}

/// The stack text of an entry: the kept frame lines, one per line.
pub open spec fn stack_text(frames: Seq<StackFrame>) -> Seq<char> {
    joined(kept_frame_lines(frames), "\n"@)
}

/// Renders one stack frame.
pub fn format_frame(f: &StackFrame) -> (r: String)
    ensures
        r@ == frame_text(*f),
{
    let mut s = join2("    at ", f.function_name.as_str());
    s.append(" (");
    s.append(f.url.as_str());
    s.append(":");
    s.append(i64_text(f.line_number).as_str());
    s.append(":");
    s.append(i64_text(f.column_number).as_str());
    s.append(")");
    s
}

/// Renders a stack, truncated to its first `MAX_STACK_FRAMES` frames.
pub fn format_stack(frames: &Vec<StackFrame>) -> (r: String)
    ensures
        r@ == stack_text(frames@),
{
    let n = if frames.len() < MAX_STACK_FRAMES {
        frames.len()
    } else {
        MAX_STACK_FRAMES
    };
    let mut lines: Vec<String> = Vec::new();
    let mut i: usize = 0;
    while i < n
        invariant
            n <= frames@.len(),
            n == kept_frame_lines(frames@).len(),
            i <= n,
            views(lines@) =~= kept_frame_lines(frames@).take(i as int),
        decreases n - i,
    {
        let line = format_frame(&frames[i]);
        let ghost before = lines@;
        lines.push(line);
        proof {
            assert(lines@ == before.push(line));
            assert(views(lines@) =~= views(before).push(line@));
            assert(kept_frame_lines(frames@).take(i + 1) =~= kept_frame_lines(frames@).take(
                i as int,
            ).push(frame_text(frames@[i as int])));
        }
        i += 1;
    }
    assert(kept_frame_lines(frames@).take(n as int) =~= kept_frame_lines(frames@));
    join_with(&lines, "\n")
}

/// Renders an optional stack.
fn optional_stack(frames: &Option<Vec<StackFrame>>) -> (r: Option<String>)
    ensures
        frames is None ==> r is None,
        frames is Some ==> r is Some && r->Some_0@ == stack_text(frames->Some_0@),
{
    match frames {
        Some(f) => Some(format_stack(f)),
        None => None,
    }
}

/// The entry for a structured log event: its level name is lowercased, as is
/// the name of its source.
pub fn log_entry(
    level_name: &str,
    source_name: &str,
    text: String,
    url: Option<String>,
    line: Option<u32>,
    frames: &Option<Vec<StackFrame>>,
    timestamp_ms: i64,
) -> (r: ConsoleEntry)
    ensures
        r.level@ == lower_of(level_name@),
        r.source@ == lower_of(source_name@),
        r.text == text,
        r.url == url,
        r.line == line,
        frames is None ==> r.stack_trace is None,
        frames is Some ==> r.stack_trace is Some && r.stack_trace->Some_0@ == stack_text(
            frames->Some_0@,
        ),
        r.timestamp_ms == timestamp_ms,
{
    ConsoleEntry {
        level: lowercase(level_name),
        source: lowercase(source_name),
        text,
        url,
        line,
        stack_trace: optional_stack(frames),
        timestamp_ms,
    }
}

/// The entry for a console API call: the rendered arguments are joined by
/// single spaces, and the source is `console`.
pub fn console_entry(
    kind_name: &str,
    args: &Vec<String>,
    frames: &Option<Vec<StackFrame>>,
    timestamp_ms: i64,
) -> (r: ConsoleEntry)
    ensures
        r.level@ == lower_of(kind_name@),
        r.source@ == "console"@,
        r.text@ == joined(views(args@), " "@),
        r.url is None,
        r.line is None,
        frames is None ==> r.stack_trace is None,
        frames is Some ==> r.stack_trace is Some && r.stack_trace->Some_0@ == stack_text(
            frames->Some_0@,
        ),
        r.timestamp_ms == timestamp_ms,
{
    ConsoleEntry {
        level: lowercase(kind_name),
        source: "console".to_owned(),
        text: join_with(args, " "),
        url: None,
        line: None,
        stack_trace: optional_stack(frames),
        timestamp_ms,
    }
}

/// The entry for an uncaught exception: level `error`, source `exception`;
/// the text is the exception's description when there is one, else the
/// exception text.
pub fn exception_entry(
    description: Option<String>,
    text: String,
    url: Option<String>,
    line_number: u32,
    frames: &Option<Vec<StackFrame>>,
    timestamp_ms: i64,
) -> (r: ConsoleEntry)
    ensures
        r.level@ == "error"@,
        r.source@ == "exception"@,
        description is Some ==> r.text == description->Some_0,
        description is None ==> r.text == text,
        r.url == url,
        r.line == Some(line_number),
        frames is None ==> r.stack_trace is None,
        frames is Some ==> r.stack_trace is Some && r.stack_trace->Some_0@ == stack_text(
            frames->Some_0@,
        ),
        r.timestamp_ms == timestamp_ms,
{
    let t = match description {
        Some(d) => d,
        None => text,
    };
    ConsoleEntry {
        level: "error".to_owned(),
        source: "exception".to_owned(),
        text: t,
        url,
        line: Some(line_number),
        stack_trace: optional_stack(frames),
        timestamp_ms,
    }
}

/// The time left to wait after `elapsed_ms`, or `None` when the deadline has
/// come.
pub open spec fn remaining_spec(timeout_ms: u64, elapsed_ms: u64) -> Option<u64> {
    if elapsed_ms >= timeout_ms {
        None
    } else {
        Some((timeout_ms - elapsed_ms) as u64)
    }
}

/// The entries captured so far within one deadline.
pub struct EventCollector {
    pub timeout_ms: u64,
    pub entries: Vec<ConsoleEntry>,
}

impl EventCollector {
    /// A collector with nothing captured yet.
    pub fn new(timeout_ms: u64) -> (r: EventCollector)
        ensures
            r.timeout_ms == timeout_ms,
            r.entries@.len() == 0,
    {
        EventCollector { timeout_ms, entries: Vec::new() }
    }

    /// How long the next round may wait, or `None` when collection must stop.
    pub fn remaining(&self, elapsed_ms: u64) -> (r: Option<u64>)
        ensures
            r == remaining_spec(self.timeout_ms, elapsed_ms),
    {
        if elapsed_ms >= self.timeout_ms {
            None
        } else {
            Some(self.timeout_ms - elapsed_ms)
        }
    }

    /// Appends an entry, after those already captured.
    pub fn record(&mut self, entry: ConsoleEntry)
        ensures
            final(self).timeout_ms == old(self).timeout_ms,
            final(self).entries@ == old(self).entries@.push(entry),
    {
        self.entries.push(entry);
    }

    /// The captured entries, in order of arrival.
    pub fn finish(self) -> (r: Vec<ConsoleEntry>)
        ensures
            r@ == self.entries@,
    {
        self.entries
    }
}

/// With no time to collect, collection stops before its first round and the
/// result is empty.
pub proof fn zero_timeout_collects_nothing(c: EventCollector, elapsed_ms: u64)
    requires
        c.timeout_ms == 0,
        c.entries@.len() == 0,
    ensures
        remaining_spec(c.timeout_ms, elapsed_ms) is None,
        c.entries@ == Seq::<ConsoleEntry>::empty(),
{
    assert(c.entries@ =~= Seq::<ConsoleEntry>::empty());
}

} // verus!
