//! The session socket's protocol decisions: what a connection does with each line,
//! what a failed connect is reported as, and what a `get_session` reply becomes.
//! The socket I/O itself happens outside the verified core.

use vstd::prelude::*;

use crate::action::RemoteAction;
use crate::text::push_str;

verus! {

broadcast use vstd::string::group_string_axioms;

/// `std::path::PathBuf`, declared so the path of a bound socket can be carried
/// through; nothing inside it is read.
#[verifier::external_type_specification]
#[verifier::external_body]
pub struct ExPathBuf(std::path::PathBuf);

/// The result of trying to bind the session socket.
pub enum BindOutcome {
    /// Bound and serving; the caller owns (and unlinks on quit) this path.
    Bound(std::path::PathBuf),
    /// A live instance already owns the socket; it was left alone.
    OtherInstance,
    /// Binding (or a prerequisite) failed; MCP session tools are unavailable.
    Failed,
}

/// The exact `get_session` request line a client sends.
pub const GET_SESSION_LINE: &'static str = "{\"action\":\"get_session\"}\n";

/// Shown when the session socket cannot be reached.
pub const NO_TUI: &'static str = "no running Quotail TUI to control — launch `quotail` in another terminal first. (The read-only market-data tools work without a running TUI.)";

/// Why connecting to the session socket failed.
pub enum ConnectFailure {
    /// No socket file.
    NotFound,
    /// A stale file with nobody listening.
    ConnectionRefused,
    /// Anything else, with the system's description.
    Other(String),
}

/// The message for a failed connect: a missing or stale socket means no TUI is
/// running; anything else is reported with its cause.
pub open spec fn connect_msg(f: ConnectFailure) -> Seq<char> {
    match f {
        ConnectFailure::NotFound | ConnectFailure::ConnectionRefused => NO_TUI@,
        ConnectFailure::Other(e) => "could not reach the running Quotail TUI: "@ + e@,
    }
}

/// Reports a failed connect.
pub fn connect_error_message(f: ConnectFailure) -> (m: String)
    ensures
        m@ == connect_msg(f),
{
    match f {
        ConnectFailure::NotFound | ConnectFailure::ConnectionRefused => NO_TUI.to_string(),
        ConnectFailure::Other(e) => {
            let mut m = "could not reach the running Quotail TUI: ".to_string();
            push_str(&mut m, e.as_str());
            m
        },
    }
}

/// How waiting for the `get_session` reply ended.
pub enum ReplyOutcome {
    /// No line within the timeout.
    TimedOut,
    /// Reading failed, with the system's description.
    ReadError(String),
    /// The TUI closed the connection without a line.
    Closed,
    /// One reply line.
    Line(String),
}

/// What the client makes of the reply: the line itself, or an error saying what
/// went wrong — a wedged TUI surfaces as a timeout, never a hang.
pub open spec fn reply_ok(o: ReplyOutcome, r: Result<String, String>) -> bool {
    match o {
        ReplyOutcome::TimedOut => r is Err && r->Err_0@
            == "timed out waiting for the Quotail TUI to reply — it may be busy or wedged"@,
        ReplyOutcome::ReadError(e) => r is Err && r->Err_0@ == "error reading the session from the Quotail TUI: "@
            + e@,
        ReplyOutcome::Closed => r is Err && r->Err_0@
            == "the Quotail TUI closed the connection without sending a session"@,
        ReplyOutcome::Line(l) => r is Ok && r->Ok_0 == l,
    }
}

/// Turns the outcome of waiting for a `get_session` reply into the tool's answer.
pub fn session_reply(o: ReplyOutcome) -> (r: Result<String, String>)
    ensures
        reply_ok(o, r),
{
    match o {
        ReplyOutcome::TimedOut => Err(
            "timed out waiting for the Quotail TUI to reply — it may be busy or wedged".to_string(),
        ),
        ReplyOutcome::ReadError(e) => {
            let mut m = "error reading the session from the Quotail TUI: ".to_string();
            push_str(&mut m, e.as_str());
            Err(m)
        },
        ReplyOutcome::Closed => Err(
            "the Quotail TUI closed the connection without sending a session".to_string(),
        ),
        ReplyOutcome::Line(l) => Ok(l),
    }
}

/// What a connection does with one line.
pub enum LineStep {
    /// A blank line: ignore it.
    Skip,
    /// A `get_session` query: answer it with a snapshot.
    Answer,
    /// A remote action: send it into the app's channel.
    Forward(RemoteAction),
    /// Anything else is malformed: drop it, the connection stays open.
    Drop,
}

/// The step for a trimmed line: blank lines are skipped; a line that parses as the
/// session query is answered; else one that parses as a remote action is
/// forwarded; anything else is dropped.
pub open spec fn line_step_spec(blank: bool, is_query: bool, remote: Option<RemoteAction>) -> LineStep {
    if blank {
        LineStep::Skip
    } else if is_query {
        LineStep::Answer
    } else {
        match remote {
            Some(a) => LineStep::Forward(a),
            None => LineStep::Drop,
        }
    }
}

/// Decides what a connection does with one line, given whether the trimmed line is
/// blank, whether it parsed as the session query, and what it parsed to as a remote
/// action.
pub fn line_step(blank: bool, is_query: bool, remote: Option<RemoteAction>) -> (s: LineStep)
    ensures
        s == line_step_spec(blank, is_query, remote),
{
    if blank {
        LineStep::Skip
    } else if is_query {
        LineStep::Answer
    } else {
        match remote {
            Some(a) => LineStep::Forward(a),
            None => LineStep::Drop,
        }
    }
}

} // verus!
