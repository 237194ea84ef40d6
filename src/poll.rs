//! Bounded polling: a predicate is evaluated against the page until it holds
//! or the timeout has passed, with a pause of one interval (at most the time
//! left) between evaluations.
//!
//! The waiting itself (the clock, the evaluation, the pause) belongs to the
//! caller; the decisions are made here. A wait runs as: evaluate the
//! predicate, read the clock, and ask [`PollWaiter::on_probe`]; sleep when
//! told to, and start over.

use vstd::prelude::*;
use crate::text::{has_prefix, starts_with_text, text_eq, digits_of, u64_text, join2};
use crate::scripts::{element_probe, element_probe_text, text_gone_probe, text_gone_probe_text, text_probe, text_probe_text};

verus! {

/// The pause between two evaluations, in milliseconds, unless less time is left.
pub const POLL_INTERVAL_MS: u64 = 100;

/// How an evaluation error is treated.
#[derive(Debug, Clone, Copy, PartialEq, Eq, Structural)]
pub enum WaitPolicy {
    /// An evaluation error ends the wait as an error.
    Strict,
    /// An evaluation error counts as the awaited condition (used when waiting
    /// for something to disappear, where the document may have navigated away).
    Lenient,
}

/// The result of one evaluation of the predicate.
#[derive(Debug, Clone, Copy, PartialEq, Eq, Structural)]
pub enum Probe {
    Holds,
    Pending,
    EvalError,
}

/// What the caller does next.
#[derive(Debug, Clone, Copy, PartialEq, Eq, Structural)]
pub enum PollAction {
    /// Pause for this many milliseconds, then evaluate again.
    Sleep { ms: u64 },
    /// The condition holds: the wait succeeded.
    Satisfied,
    /// The timeout has passed; the reading that showed it.
    TimedOut { elapsed_ms: u64 },
    /// The evaluation failed and the policy does not forgive it.
    Failed,
}

/// One wait: its timeout and its policy.
#[derive(Debug, Clone, Copy, PartialEq, Eq, Structural)]
pub struct PollWaiter {
    pub timeout_ms: u64,
    pub policy: WaitPolicy,
}

/// The pause after a reading of `elapsed_ms` that is still within the
/// timeout: one interval, or the time left when that is shorter.
pub open spec fn pause_ms(timeout_ms: u64, elapsed_ms: u64) -> u64 {
    if ((timeout_ms - elapsed_ms) as u64) < POLL_INTERVAL_MS {
        (timeout_ms - elapsed_ms) as u64
    } else {
        POLL_INTERVAL_MS
    }
}

/// The decision on one evaluation, made with the clock reading taken after it.
pub open spec fn poll_spec(w: PollWaiter, probe: Probe, elapsed_ms: u64) -> PollAction {
    match probe {
        Probe::Holds => PollAction::Satisfied,
        Probe::EvalError => match w.policy {
            WaitPolicy::Strict => PollAction::Failed,
            WaitPolicy::Lenient => PollAction::Satisfied,
        },
        Probe::Pending => if elapsed_ms >= w.timeout_ms {
            PollAction::TimedOut { elapsed_ms }
        } else {
            PollAction::Sleep { ms: pause_ms(w.timeout_ms, elapsed_ms) }
        },
    }
}

impl PollWaiter {
    /// A wait with this timeout and policy.
    pub fn new(timeout_ms: u64, policy: WaitPolicy) -> (r: PollWaiter)
        ensures
            r.timeout_ms == timeout_ms,
            r.policy == policy,
    {
        PollWaiter { timeout_ms, policy }
    }

    /// Decides on the result of one evaluation and the time elapsed since the
    /// wait began: a condition that holds ends the wait at once; one that does
    /// not yet hold ends it once the timeout has passed, and otherwise leads
    /// to a pause that does not reach past the timeout.
    pub fn on_probe(&self, probe: Probe, elapsed_ms: u64) -> (r: PollAction)
        ensures
            r == poll_spec(*self, probe, elapsed_ms),
    {
        match probe {
            Probe::Holds => PollAction::Satisfied,
            Probe::EvalError => match self.policy {
                WaitPolicy::Strict => PollAction::Failed,
                WaitPolicy::Lenient => PollAction::Satisfied,
            },
            Probe::Pending => {
                if elapsed_ms >= self.timeout_ms {
                    PollAction::TimedOut { elapsed_ms }
                } else if self.timeout_ms - elapsed_ms < POLL_INTERVAL_MS {
                    PollAction::Sleep { ms: self.timeout_ms - elapsed_ms }
                } else {
                    PollAction::Sleep { ms: POLL_INTERVAL_MS }
                }
            },
        }
    }
}

/// A predicate that holds at its first evaluation ends the wait there, with
/// no pause, whatever the timeout, the policy and the clock reading.
pub proof fn holds_at_start_ends_without_pause(w: PollWaiter, elapsed_ms: u64)
    ensures
        poll_spec(w, Probe::Holds, elapsed_ms) == PollAction::Satisfied,
{
}

/// The end of a wait on a predicate that never holds, when each reading is
/// the previous one plus the pause asked for (evaluations taking no time).
pub open spec fn pending_run(w: PollWaiter, elapsed_ms: u64) -> PollAction
    decreases w.timeout_ms - elapsed_ms,
{
    match poll_spec(w, Probe::Pending, elapsed_ms) {
        PollAction::Sleep { ms } => if 0 < ms && elapsed_ms + ms <= w.timeout_ms {
            pending_run(w, (elapsed_ms + ms) as u64)
        } else {
            PollAction::Failed
        },
        other => other,
    }
}

/// A predicate that never holds: a reading still within the timeout leads
/// to a pause of at least one and at most one interval of milliseconds that
/// does not reach past the timeout, so the next reading exceeds the timeout
/// by no more than the evaluation time; a reading at or past the timeout
/// ends the wait as timed out with that reading.
pub proof fn pending_step_stays_within_timeout(w: PollWaiter, elapsed_ms: u64)
    ensures
        elapsed_ms < w.timeout_ms ==> ({
            let a = poll_spec(w, Probe::Pending, elapsed_ms);
            &&& a is Sleep
            &&& 0 < a->ms <= POLL_INTERVAL_MS
            &&& elapsed_ms + a->ms <= w.timeout_ms
        }),
        elapsed_ms >= w.timeout_ms ==> poll_spec(w, Probe::Pending, elapsed_ms) == (
        PollAction::TimedOut { elapsed_ms }),
{
}

/// A predicate that never holds, with evaluations taking no time: from any
/// first reading up to the timeout, the wait ends as timed out with an
/// elapsed time of exactly the timeout, which is at least the timeout and
/// under the timeout plus one interval, for every timeout.
pub proof fn never_holds_times_out_within_one_interval(w: PollWaiter, first_ms: u64)
    requires
        first_ms <= w.timeout_ms,
    ensures
        pending_run(w, first_ms) == (PollAction::TimedOut { elapsed_ms: w.timeout_ms }),
        w.timeout_ms <= w.timeout_ms < w.timeout_ms + POLL_INTERVAL_MS,
    decreases w.timeout_ms - first_ms,
{
    if first_ms < w.timeout_ms {
        let ms = pause_ms(w.timeout_ms, first_ms);
        never_holds_times_out_within_one_interval(w, (first_ms + ms) as u64);
    }
}

/// What a wait is waiting for.
#[derive(Debug, Clone, Copy, PartialEq, Eq, Structural)]
pub enum WaitSubject {
    Element,
    ElementGone,
    Text,
    TextGone,
}

impl WaitSubject {
    /// How evaluation errors count: as the awaited disappearance of an
    /// element (the document may have navigated away), as errors otherwise.
    pub fn policy(&self) -> (r: WaitPolicy)
        ensures
            *self == WaitSubject::ElementGone ==> r == WaitPolicy::Lenient,
            *self != WaitSubject::ElementGone ==> r == WaitPolicy::Strict,
    {
        match self {
            WaitSubject::ElementGone => WaitPolicy::Lenient,
            _ => WaitPolicy::Strict,
        }
    }
}

/// The script evaluated for a wait: whether the element is present (for both
/// element waits), whether the text is present, or whether it is gone.
pub open spec fn wait_script_text(subject: WaitSubject, target: Seq<char>) -> Seq<char> {
    match subject {
        WaitSubject::Element | WaitSubject::ElementGone => element_probe_text(target),
        WaitSubject::Text => text_probe_text(target),
        WaitSubject::TextGone => text_gone_probe_text(target),
    }
}

/// The script evaluated for a wait.
pub fn wait_script(subject: WaitSubject, target: &str) -> (r: String)
    ensures
        r@ == wait_script_text(subject, target@),
{
    match subject {
        WaitSubject::Element | WaitSubject::ElementGone => element_probe(target),
        WaitSubject::Text => text_probe(target),
        WaitSubject::TextGone => text_gone_probe(target),
    }
}

/// Reads what one evaluation of a wait's script gave (no value: the
/// evaluation failed). The element-gone wait holds when the element is
/// reported absent; the others when their script reports a plain `true`.
pub fn wait_probe(subject: WaitSubject, reported: Option<Option<bool>>) -> (r: Probe)
    ensures
        reported is None ==> r == Probe::EvalError,
        reported is Some && subject == WaitSubject::ElementGone ==> (r == Probe::Holds <==> reported
            == Some(Some(false))),
        reported is Some && subject != WaitSubject::ElementGone ==> (r == Probe::Holds <==> reported
            == Some(Some(true))),
        reported is Some ==> r != Probe::EvalError,
{
    match (subject, reported) {
        (_, None) => Probe::EvalError,
        (WaitSubject::ElementGone, Some(Some(false))) => Probe::Holds,
        (WaitSubject::ElementGone, Some(_)) => Probe::Pending,
        (_, Some(Some(true))) => Probe::Holds,
        (_, Some(_)) => Probe::Pending,
    }
}

/// What the page reports while a navigation is under way.
pub open spec fn arrived_spec(current: Seq<char>, requested: Seq<char>, ready: Seq<char>) -> bool {
    (has_prefix(current, requested) || current != "about:blank"@) && (ready == "complete"@ || ready
        == "interactive"@)
}

/// Whether a navigation has arrived: the page has left the blank placeholder
/// (or shows the requested address) and its document is interactive or
/// complete. A redirect to another address counts as arrival.
pub fn navigation_arrived(current_url: &str, requested_url: &str, ready_state: &str) -> (r: bool)
    ensures
        r == arrived_spec(current_url@, requested_url@, ready_state@),
{
    (starts_with_text(current_url, requested_url) || !text_eq(current_url, "about:blank")) && (
    text_eq(ready_state, "complete") || text_eq(ready_state, "interactive"))
}

/// The time a navigation may take, in milliseconds.
pub const NAVIGATION_TIMEOUT_MS: u64 = 30000;


/// The message of a timed-out wait, naming the selector or text and the timeout.
pub open spec fn timeout_message(subject: WaitSubject, target: Seq<char>, timeout_ms: u64) -> Seq<
    char,
> {
    match subject {
        WaitSubject::Element => "Timeout waiting for \""@ + target + "\" ("@ + digits_of(
            timeout_ms as nat,
        ) + "ms)"@,
        WaitSubject::ElementGone => "Timeout waiting for \""@ + target + "\" to disappear ("@
            + digits_of(timeout_ms as nat) + "ms)"@,
        WaitSubject::Text => "Timeout waiting for text \""@ + target + "\" ("@ + digits_of(
            timeout_ms as nat,
        ) + "ms)"@,
        WaitSubject::TextGone => "Timeout waiting for text \""@ + target + "\" to disappear ("@
            + digits_of(timeout_ms as nat) + "ms)"@,
    }
}

/// Builds the message of a timed-out wait.
pub fn wait_timeout_message(subject: WaitSubject, target: &str, timeout_ms: u64) -> (r: String)
    ensures
        r@ == timeout_message(subject, target@, timeout_ms),
{
    let head = match subject {
        WaitSubject::Element | WaitSubject::ElementGone => "Timeout waiting for \"",
        WaitSubject::Text | WaitSubject::TextGone => "Timeout waiting for text \"",
    };
    let mid = match subject {
        WaitSubject::Element | WaitSubject::Text => "\" (",
        WaitSubject::ElementGone | WaitSubject::TextGone => "\" to disappear (",
    };
    let mut s = join2(head, target);
    s.append(mid);
    s.append(u64_text(timeout_ms).as_str());
    s.append("ms)");
    s
}

} // verus!
