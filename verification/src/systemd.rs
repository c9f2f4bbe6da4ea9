//! systemd user services: the commands sent to `systemctl --user` and how their output is
//! read.

use vstd::prelude::*;

use crate::session_env::{trim_spaces, trimmed};
use crate::text::{chars_contain, str_contains};

verus! {

/// Whether the output of `systemctl --user is-system-running` shows a responsive user
/// session: any status but an empty one or `offline`.
pub open spec fn session_status_ok(stdout: Seq<char>) -> bool {
    trimmed(stdout).len() > 0 && trimmed(stdout) != "offline"@
}

/// Reads the output of `systemctl --user is-system-running`.
pub fn user_session_responds(stdout: &str) -> (res: bool)
    ensures
        res == session_status_ok(stdout@),
{
    let status = trim_spaces(stdout);
    let offline = String::from_str("offline");
    !status.as_str().is_empty() && status != offline
}

/// Whether the output of `systemctl --user is-active` says `active`.
pub open spec fn status_is_active(stdout: Seq<char>) -> bool {
    trimmed(stdout) == "active"@
}

/// Reads the output of `systemctl --user is-active`.
pub fn service_status_active(stdout: &str) -> (res: bool)
    ensures
        res == status_is_active(stdout@),
{
    let status = trim_spaces(stdout);
    let active = String::from_str("active");
    status == active
}

/// What is asked of a unit.
#[derive(Debug, Clone, Copy, PartialEq, Eq, Structural)]
pub enum UnitCommand {
    /// Start a service.
    Start,
    /// Stop a service.
    Stop,
    /// Start a socket (for socket activation).
    StartSocket,
}

/// The `systemctl` verb of a unit command.
pub open spec fn command_verb(c: UnitCommand) -> Seq<char> {
    match c {
        UnitCommand::Stop => "stop"@,
        _ => "start"@,
    }
}

/// The arguments of `systemctl` for a unit command.
pub fn systemctl_args(command: UnitCommand, unit: &str) -> (res: Vec<String>)
    ensures
        res.deep_view() == seq!["--user"@, command_verb(command), unit@],
{
    let mut res: Vec<String> = Vec::new();
    res.push(String::from_str("--user"));
    match command {
        UnitCommand::Stop => res.push(String::from_str("stop")),
        _ => res.push(String::from_str("start")),
    }
    res.push(String::from_str(unit));
    assert(res.deep_view() =~= seq!["--user"@, command_verb(command), unit@]);
    res
}

/// How a `systemctl` run for a unit command went.
pub enum UnitRun {
    /// It ran and exited, successfully or not, with this error output.
    Exited { success: bool, stderr: String },
    /// It could not be run, with this error.
    NotRun(String),
    /// It did not finish in time.
    TimedOut,
}

/// A run as plain values.
pub enum UnitRunView {
    Exited { success: bool, stderr: Seq<char> },
    NotRun(Seq<char>),
    TimedOut,
}

impl View for UnitRun {
    type V = UnitRunView;

    open spec fn view(&self) -> UnitRunView {
        match self {
            UnitRun::Exited { success, stderr } => UnitRunView::Exited { success: *success, stderr: stderr@ },
            UnitRun::NotRun(e) => UnitRunView::NotRun(e@),
            UnitRun::TimedOut => UnitRunView::TimedOut,
        }
    }
}

/// The outcome of a unit command: success when `systemctl` exited successfully, or, for a
/// socket, when its error output says it is already running; else an error naming the unit
/// and quoting the trimmed error output, or saying that `systemctl` could not be run or
/// timed out.
pub open spec fn unit_outcome(command: UnitCommand, unit: Seq<char>, run: UnitRunView) -> Result<(), Seq<char>> {
    let verb = match command {
        UnitCommand::Stop => "stop"@,
        _ => "start"@,
    };
    let doing = match command {
        UnitCommand::Stop => "stopping"@,
        _ => "starting"@,
    };
    match run {
        UnitRunView::Exited { success, stderr } => if success {
            Ok(())
        } else if command == UnitCommand::StartSocket && chars_contain(stderr, "already"@) {
            Ok(())
        } else {
            Err("Failed to "@ + verb + " "@ + unit + ": "@ + trimmed(stderr))
        },
        UnitRunView::NotRun(e) => Err("Failed to run systemctl: "@ + e),
        UnitRunView::TimedOut => Err("Timed out "@ + doing + " "@ + unit),
    }
}

/// Decides the outcome of a unit command from how its `systemctl` run went.
pub fn unit_command_result(command: UnitCommand, unit: &str, run: &UnitRun) -> (res: Result<(), String>)
    ensures
        match unit_outcome(command, unit@, run@) {
            Ok(()) => res is Ok,
            Err(m) => res matches Err(r) && r@ == m,
        },
{
    let verb = match command {
        UnitCommand::Stop => String::from_str("stop"),
        _ => String::from_str("start"),
    };
    let doing = match command {
        UnitCommand::Stop => String::from_str("stopping"),
        _ => String::from_str("starting"),
    };
    match run {
        UnitRun::Exited { success, stderr } => {
            if *success {
                return Ok(());
            }
            if command == UnitCommand::StartSocket && str_contains(stderr.as_str(), "already") {
                return Ok(());
            }
            let detail = trim_spaces(stderr.as_str());
            Err(String::from_str("Failed to ").concat(verb.as_str()).concat(" ").concat(unit).concat(": ").concat(detail.as_str()))
        },
        UnitRun::NotRun(e) => Err(String::from_str("Failed to run systemctl: ").concat(e.as_str())),
        UnitRun::TimedOut => Err(String::from_str("Timed out ").concat(doing.as_str()).concat(" ").concat(unit)),
    }
}

} // verus!
