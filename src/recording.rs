//! The states of a recording session and of a hand-over to a person, and the
//! decisions taken on them. Where the state is kept between runs is the
//! caller's affair: it reads the stored state and hands it in.

use vstd::prelude::*;
use crate::text::{join2, has_prefix, has_suffix, starts_with_text, ends_with_text, digits_of, u64_text};
use crate::session::{now_millis, elapsed_between};

verus! {

/// The outcome of one recorded action.
#[derive(Debug, Clone, Copy, PartialEq, Eq, Structural)]
pub enum ActionStatus {
    Success,
    Failed,
    Skipped,
    Paused,
}

/// The state of a recording session.
#[derive(Debug, Clone, Copy, PartialEq, Eq, Structural)]
pub enum SessionStatus {
    Recording,
    Paused,
    Completed,
    Failed,
}

/// What is known of the browser a session ran in.
#[derive(Debug, Clone)]
pub struct SessionMetadata {
    pub description: Option<String>,
    pub tags: Vec<String>,
    pub browser_version: Option<String>,
    pub viewport: Option<(u32, u32)>,
}

impl Default for SessionMetadata {
    fn default() -> (r: SessionMetadata)
        ensures
            r.description is None,
            r.tags@.len() == 0,
            r.browser_version is None,
            r.viewport is None,
    {
        SessionMetadata { description: None, tags: Vec::new(), browser_version: None, viewport: None }
    }
}

/// `name` placed in directory `dir`, with one `/` between them; an absolute
/// `name` stands for itself.
pub open spec fn path_in(dir: Seq<char>, name: Seq<char>) -> Seq<char> {
    if has_prefix(name, "/"@) || dir.len() == 0 {
        name
    } else if has_suffix(dir, "/"@) {
        dir + name
    } else {
        dir + "/"@ + name
    }
}

/// Places `name` in directory `dir`.
pub fn join_path(dir: &str, name: &str) -> (r: String)
    ensures
        r@ == path_in(dir@, name@),
{
    if starts_with_text(name, "/") || dir.unicode_len() == 0 {
        name.to_owned()
    } else if ends_with_text(dir, "/") {
        join2(dir, name)
    } else {
        let mut s = join2(dir, "/");
        s.append(name);
        s
    }
}

/// Why a session command was refused.
#[derive(Debug, Clone, Copy, PartialEq, Eq, Structural)]
pub enum SessionError {
    /// A session is recording or paused: it must be stopped first.
    AlreadyActive,
    /// There is no session to act on.
    NoActiveSession,
}

/// A session that is recording or paused.
pub open spec fn is_live(s: Option<SessionStatus>) -> bool {
    s == Some(SessionStatus::Recording) || s == Some(SessionStatus::Paused)
}

/// Decides on session commands, given the stored state of the active session.
#[derive(Debug, Clone)]
pub struct SessionRecorder {
    pub sessions_dir: String,
    pub active_session_path: String,
}

impl SessionRecorder {
    /// A recorder that keeps its sessions in `sessions_dir`.
    pub fn new(sessions_dir: String) -> (r: SessionRecorder)
        ensures
            r.sessions_dir == sessions_dir,
            r.active_session_path@ == path_in(sessions_dir@, "_active_session.json"@),
    {
        let active_session_path = join_path(sessions_dir.as_str(), "_active_session.json");
        SessionRecorder { sessions_dir, active_session_path }
    }

    /// Whether a new session may start: not while another is recording or paused.
    pub fn start(&self, active: Option<SessionStatus>) -> (r: Result<SessionStatus, SessionError>)
        ensures
            is_live(active) ==> r == Err::<SessionStatus, SessionError>(
                SessionError::AlreadyActive,
            ),
            !is_live(active) ==> r == Ok::<SessionStatus, SessionError>(SessionStatus::Recording),
    {
        match active {
            Some(SessionStatus::Recording) | Some(SessionStatus::Paused) => Err(
                SessionError::AlreadyActive,
            ),
            _ => Ok(SessionStatus::Recording),
        }
    }

    /// The state after pausing: paused, if there is an active session.
    pub fn pause(&self, active: Option<SessionStatus>) -> (r: Result<SessionStatus, SessionError>)
        ensures
            active is None ==> r == Err::<SessionStatus, SessionError>(
                SessionError::NoActiveSession,
            ),
            active is Some ==> r == Ok::<SessionStatus, SessionError>(SessionStatus::Paused),
    {
        match active {
            Some(_) => Ok(SessionStatus::Paused),
            None => Err(SessionError::NoActiveSession),
        }
    }

    /// The state after resuming: recording, if there is an active session.
    pub fn resume(&self, active: Option<SessionStatus>) -> (r: Result<SessionStatus, SessionError>)
        ensures
            active is None ==> r == Err::<SessionStatus, SessionError>(
                SessionError::NoActiveSession,
            ),
            active is Some ==> r == Ok::<SessionStatus, SessionError>(SessionStatus::Recording),
    {
        match active {
            Some(_) => Ok(SessionStatus::Recording),
            None => Err(SessionError::NoActiveSession),
        }
    }

    /// Whether the active session is recording.
    pub fn is_recording(&self, active: Option<SessionStatus>) -> (r: bool)
        ensures
            r == (active == Some(SessionStatus::Recording)),
    {
        match active {
            Some(SessionStatus::Recording) => true,
            _ => false,
        }
    }

    /// Whether the active session is paused.
    pub fn is_paused(&self, active: Option<SessionStatus>) -> (r: bool)
        ensures
            r == (active == Some(SessionStatus::Paused)),
    {
        match active {
            Some(SessionStatus::Paused) => true,
            _ => false,
        }
    }

    /// The state of the active session, if any.
    pub fn get_status(&self, active: Option<SessionStatus>) -> (r: Option<SessionStatus>)
        ensures
            r == active,
    {
        active
    }

    /// Whether an action is to be recorded: only while recording.
    pub fn records_action(&self, active: Option<SessionStatus>) -> (r: bool)
        ensures
            r == (active == Some(SessionStatus::Recording)),
    {
        self.is_recording(active)
    }
}

/// Who is in control of the browser.
#[derive(Debug, Clone, Copy, PartialEq, Eq, Structural)]
pub enum TakeoverState {
    Automation,
    UserControl,
    WaitingForUser,
    ResumeRequested,
}

impl Default for TakeoverState {
    fn default() -> (r: TakeoverState)
        ensures
            r == TakeoverState::Automation,
    {
        TakeoverState::Automation
    }
}

/// Why control is handed to a person.
#[derive(Debug, Clone)]
pub enum TakeoverReason {
    Captcha,
    SensitiveAction,
    Authentication,
    Error,
    Uncertain,
    UserRequested,
    ComplexInteraction,
    TwoFactorAuth,
    Payment,
    Custom(String),
}

/// A state in which a person has, or is asked to take, control.
pub open spec fn in_takeover(s: TakeoverState) -> bool {
    s == TakeoverState::WaitingForUser || s == TakeoverState::UserControl
}

/// A new hand-over identifier: `takeover-` and the clock in hex, cut to
/// twenty characters.
pub fn generate_id() -> (r: String)
    ensures
        exists|nanos: u128| r@ == crate::interact::id_text("takeover-"@, nanos, 20),
{
    let nanos = match crate::interact::epoch_nanos() {
        Some(n) => n,
        None => 0,
    };
    crate::interact::id_from_nanos("takeover-", nanos, 20)
}

/// Decides on hand-overs, given the stored state of the current one.
#[derive(Debug, Clone)]
pub struct TakeoverManager {
    pub state_file: String,
}

impl TakeoverManager {
    /// A manager that keeps its state in `domguard_dir`.
    pub fn new(domguard_dir: &str) -> (r: TakeoverManager)
        ensures
            r.state_file@ == path_in(domguard_dir@, "_takeover_state.json"@),
    {
        TakeoverManager { state_file: join_path(domguard_dir, "_takeover_state.json") }
    }

    /// Whether a hand-over is under way: the stored one waits for, or is
    /// under, a person's control.
    pub fn is_active(&self, stored: Option<TakeoverState>) -> (r: bool)
        ensures
            r == (stored is Some && in_takeover(stored->Some_0)),
    {
        match stored {
            Some(TakeoverState::WaitingForUser) | Some(TakeoverState::UserControl) => true,
            _ => false,
        }
    }
}

/// What `{:?}` shows of a string: quoted, with special characters escaped.
pub uninterp spec fn debug_text(s: Seq<char>) -> Seq<char>;

/// Relies on the `Debug` rendering of `str`: the text quoted, with quotes,
/// backslashes and control characters escaped.
#[verifier::external_body]
fn debug_quoted(s: &str) -> (r: String)
    ensures
        r@ == debug_text(s@),
{
    format!("{:?}", s)
}

/// The UTC date and time of a moment, as `YYYY-MM-DD HH:MM:SS`.
pub uninterp spec fn utc_date_text(ms: i64) -> Seq<char>;

/// Relies on `chrono::DateTime::from_timestamp_millis` and `format`: the UTC
/// date and time of a moment given in milliseconds since the epoch, in the
/// layout `%Y-%m-%d %H:%M:%S`; empty when the moment is out of range.
#[verifier::external_body]
pub(crate) fn utc_date(ms: i64) -> (r: String)
    ensures
        r@ == utc_date_text(ms),
{
    chrono::DateTime::from_timestamp_millis(ms)
        .map(|d| d.format("%Y-%m-%d %H:%M:%S").to_string())
        .unwrap_or_default()
}

/// The name of a reason, as `{:?}` shows it.
pub open spec fn reason_text(r: TakeoverReason) -> Seq<char> {
    match r {
        TakeoverReason::Captcha => "Captcha"@,
        TakeoverReason::SensitiveAction => "SensitiveAction"@,
        TakeoverReason::Authentication => "Authentication"@,
        TakeoverReason::Error => "Error"@,
        TakeoverReason::Uncertain => "Uncertain"@,
        TakeoverReason::UserRequested => "UserRequested"@,
        TakeoverReason::ComplexInteraction => "ComplexInteraction"@,
        TakeoverReason::TwoFactorAuth => "TwoFactorAuth"@,
        TakeoverReason::Payment => "Payment"@,
        TakeoverReason::Custom(s) => "Custom("@ + debug_text(s@) + ")"@,
    }
}

impl TakeoverReason {
    /// The name of this reason, as `{:?}` shows it.
    pub fn name(&self) -> (r: String)
        ensures
            r@ == reason_text(*self),
    {
        match self {
            TakeoverReason::Captcha => "Captcha".to_owned(),
            TakeoverReason::SensitiveAction => "SensitiveAction".to_owned(),
            TakeoverReason::Authentication => "Authentication".to_owned(),
            TakeoverReason::Error => "Error".to_owned(),
            TakeoverReason::Uncertain => "Uncertain".to_owned(),
            TakeoverReason::UserRequested => "UserRequested".to_owned(),
            TakeoverReason::ComplexInteraction => "ComplexInteraction".to_owned(),
            TakeoverReason::TwoFactorAuth => "TwoFactorAuth".to_owned(),
            TakeoverReason::Payment => "Payment".to_owned(),
            TakeoverReason::Custom(s) => {
                let mut out = join2("Custom(", debug_quoted(s.as_str()).as_str());
                out.append(")");
                out
            },
        }
    }
}

/// One hand-over of control to a person.
#[derive(Debug, Clone)]
pub struct TakeoverSession {
    pub id: String,
    pub state: TakeoverState,
    pub reason: TakeoverReason,
    /// What the person is told.
    pub message: String,
    /// What the person should do.
    pub instructions: Option<String>,
    /// What should hold once the person is done.
    pub expected_outcome: Option<String>,
    pub url: Option<String>,
    /// When it began, in milliseconds since the epoch.
    pub started_at_ms: i64,
    pub ended_at_ms: Option<i64>,
    pub duration_secs: Option<u64>,
    pub success: Option<bool>,
    pub user_notes: Option<String>,
}

impl TakeoverSession {
    /// A hand-over that begins now and waits for the person.
    pub fn new(reason: TakeoverReason, message: &str) -> (r: TakeoverSession)
        ensures
            r.state == TakeoverState::WaitingForUser,
            r.reason == reason,
            r.message@ == message@,
            r.instructions is None,
            r.expected_outcome is None,
            r.url is None,
            r.ended_at_ms is None,
            r.duration_secs is None,
            r.success is None,
            r.user_notes is None,
            exists|nanos: u128| r.id@ == crate::interact::id_text("takeover-"@, nanos, 20),
    {
        TakeoverSession {
            id: generate_id(),
            state: TakeoverState::WaitingForUser,
            reason,
            message: message.to_owned(),
            instructions: None,
            expected_outcome: None,
            url: None,
            started_at_ms: now_millis(),
            ended_at_ms: None,
            duration_secs: None,
            success: None,
            user_notes: None,
        }
    }

    /// Adds what the person should do.
    pub fn with_instructions(self, instructions: &str) -> (r: TakeoverSession)
        ensures
            opt_is(r.instructions, instructions@),
            r.id == self.id,
            r.state == self.state,
            r.url == self.url,
            r.expected_outcome == self.expected_outcome,
    {
        TakeoverSession { instructions: Some(instructions.to_owned()), ..self }
    }

    /// Adds what should hold once the person is done.
    pub fn with_expected_outcome(self, outcome: &str) -> (r: TakeoverSession)
        ensures
            opt_is(r.expected_outcome, outcome@),
            r.id == self.id,
            r.state == self.state,
            r.url == self.url,
            r.instructions == self.instructions,
    {
        TakeoverSession { expected_outcome: Some(outcome.to_owned()), ..self }
    }

    /// Adds the address of the page.
    pub fn with_url(self, url: &str) -> (r: TakeoverSession)
        ensures
            opt_is(r.url, url@),
            r.id == self.id,
            r.state == self.state,
            r.instructions == self.instructions,
            r.expected_outcome == self.expected_outcome,
    {
        TakeoverSession { url: Some(url.to_owned()), ..self }
    }

    /// Ends the hand-over now: automation may resume.
    pub fn complete(&mut self, success: bool, notes: Option<String>)
        ensures
            final(self).state == TakeoverState::ResumeRequested,
            final(self).ended_at_ms is Some,
            final(self).duration_secs == Some(
                (elapsed_between(old(self).started_at_ms, final(self).ended_at_ms->Some_0) / 1000) as u64,
            ),
            final(self).success == Some(success),
            final(self).user_notes == notes,
            final(self).id == old(self).id,
            final(self).started_at_ms == old(self).started_at_ms,
    {
        let now = now_millis();
        self.state = TakeoverState::ResumeRequested;
        self.ended_at_ms = Some(now);
        let elapsed: u64 = if now >= self.started_at_ms {
            (now as i128 - self.started_at_ms as i128) as u64
        } else {
            0
        };
        self.duration_secs = Some(elapsed / 1000);
        self.success = Some(success);
        self.user_notes = notes;
    }
}

/// The option holds exactly this text.
pub open spec fn opt_is(o: Option<String>, t: Seq<char>) -> bool {
    o is Some && o->Some_0@ == t
}

/// How a state is shown.
pub open spec fn state_text(s: TakeoverState) -> Seq<char> {
    match s {
        TakeoverState::Automation => "Automation"@,
        TakeoverState::UserControl => "User Control"@,
        TakeoverState::WaitingForUser => "Waiting for User"@,
        TakeoverState::ResumeRequested => "Resume Requested"@,
    }
}

/// A labelled line when the text is there, nothing otherwise.
pub open spec fn labelled_line(label: Seq<char>, v: Option<String>) -> Seq<char> {
    match v {
        Some(x) => label + x@ + "\n"@,
        None => Seq::empty(),
    }
}

/// The lines on how long it took and whether it worked, when known.
pub open spec fn outcome_lines(duration_secs: Option<u64>, success: Option<bool>) -> Seq<char> {
    (match duration_secs {
        Some(d) => "  Duration: "@ + digits_of(d as nat) + "s\n"@,
        None => Seq::empty(),
    }) + match success {
        Some(s) => "  Success: "@ + (if s {
            "Yes"@
        } else {
            "No"@
        }) + "\n"@,
        None => Seq::empty(),
    }
}

/// The first lines of a summary: identifier, state, reason and message.
pub open spec fn takeover_head(t: TakeoverSession) -> Seq<char> {
    "Takeover Session: "@ + t.id@ + "\n"@ + "  State: "@ + state_text(t.state) + "\n"@
        + "  Reason: "@ + reason_text(t.reason) + "\n"@ + "  Message: "@ + t.message@ + "\n"@
}

/// The summary of a hand-over, one labelled line per known part.
pub open spec fn takeover_text(t: TakeoverSession) -> Seq<char> {
    takeover_head(t) + labelled_line("  Instructions: "@, t.instructions) + labelled_line(
        "  URL: "@,
        t.url,
    ) + "  Started: "@ + utc_date_text(t.started_at_ms) + "\n"@ + outcome_lines(
        t.duration_secs,
        t.success,
    )
}

fn format_labelled_line(label: &str, v: &Option<String>) -> (r: String)
    ensures
        r@ == labelled_line(label@, *v),
{
    match v {
        Some(x) => {
            let mut s = join2(label, x.as_str());
            s.append("\n");
            s
        },
        None => String::new(),
    }
}

fn format_outcome_lines(duration_secs: Option<u64>, success: Option<bool>) -> (r: String)
    ensures
        r@ == outcome_lines(duration_secs, success),
{
    let mut out = String::new();
    match duration_secs {
        Some(d) => {
            out.append("  Duration: ");
            out.append(u64_text(d).as_str());
            out.append("s\n");
        },
        None => {},
    }
    match success {
        Some(s) => {
            out.append("  Success: ");
            out.append(
                if s {
                    "Yes"
                } else {
                    "No"
                },
            );
            out.append("\n");
        },
        None => {},
    }
    out
}

fn format_takeover_head(session: &TakeoverSession) -> (r: String)
    ensures
        r@ == takeover_head(*session),
{
    let state = match session.state {
        TakeoverState::Automation => "Automation",
        TakeoverState::UserControl => "User Control",
        TakeoverState::WaitingForUser => "Waiting for User",
        TakeoverState::ResumeRequested => "Resume Requested",
    };
    let mut out = join2("Takeover Session: ", session.id.as_str());
    out.append("\n");
    out.append("  State: ");
    out.append(state);
    out.append("\n");
    out.append("  Reason: ");
    out.append(session.reason.name().as_str());
    out.append("\n");
    out.append("  Message: ");
    out.append(session.message.as_str());
    out.append("\n");
    out
}

/// Renders a hand-over for people.
pub fn format_takeover(session: &TakeoverSession) -> (r: String)
    ensures
        r@ == takeover_text(*session),
{
    let mut out = format_takeover_head(session);
    out.append(format_labelled_line("  Instructions: ", &session.instructions).as_str());
    out.append(format_labelled_line("  URL: ", &session.url).as_str());
    out.append("  Started: ");
    out.append(utc_date(session.started_at_ms).as_str());
    out.append("\n");
    out.append(format_outcome_lines(session.duration_secs, session.success).as_str());
    out
}

} // verus!
