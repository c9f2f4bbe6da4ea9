//! Setting up the session environment (a runtime directory, a D-Bus session bus, a look at
//! the systemd user session), as a state machine: it says what to read, check or do next,
//! and takes the reply.

use vstd::prelude::*;

use crate::session_env::{
    bus_address, bus_socket, bus_socket_path, daemon_address, daemon_address_of,
    fallback_runtime_dir, fallback_runtime_dir_of, launch_address, launch_address_of,
    runtime_dir_for, runtime_dir_of, socket_address,
};

verus! {

/// The variable that names the runtime directory.
pub const RUNTIME_DIR_VAR: &'static str = "XDG_RUNTIME_DIR";

/// The variable that names the session bus.
pub const BUS_VAR: &'static str = "DBUS_SESSION_BUS_ADDRESS";

/// A command that setup runs and waits for.
#[derive(Debug, Clone, Copy, PartialEq, Eq, Structural)]
pub enum SetupCommand {
    /// `dbus-daemon --session --print-address --fork`
    DbusDaemon,
    /// `dbus-launch --sh-syntax`
    DbusLaunch,
    /// `systemctl --user is-system-running`, whose answer is only reported.
    UserSessionStatus,
}

/// What setup asks for next.
#[derive(Debug)]
pub enum SetupRequest {
    /// Read this environment variable (reply: `Value`).
    ReadVar(&'static str),
    /// Does this path exist? (reply: `Flag`)
    PathExists(String),
    /// Create this directory and its parents (reply: `Status`).
    CreateDir(String),
    /// Make this directory accessible to its owner only, mode 0700 (reply: `Status`).
    RestrictToOwner(String),
    /// Set this environment variable to this value (any reply).
    SetVar(&'static str, String),
    /// Run this command and wait for it (reply: `Output`).
    Run(SetupCommand),
    /// Setup is over, with this outcome.
    Done(Result<(), String>),
}

/// A request as plain values.
pub enum SetupRequestView {
    ReadVar(Seq<char>),
    PathExists(Seq<char>),
    CreateDir(Seq<char>),
    RestrictToOwner(Seq<char>),
    SetVar(Seq<char>, Seq<char>),
    Run(SetupCommand),
    Done(Result<(), Seq<char>>),
}

impl View for SetupRequest {
    type V = SetupRequestView;

    open spec fn view(&self) -> SetupRequestView {
        match self {
            SetupRequest::ReadVar(v) => SetupRequestView::ReadVar(v@),
            SetupRequest::PathExists(p) => SetupRequestView::PathExists(p@),
            SetupRequest::CreateDir(p) => SetupRequestView::CreateDir(p@),
            SetupRequest::RestrictToOwner(p) => SetupRequestView::RestrictToOwner(p@),
            SetupRequest::SetVar(v, x) => SetupRequestView::SetVar(v@, x@),
            SetupRequest::Run(c) => SetupRequestView::Run(*c),
            SetupRequest::Done(Ok(())) => SetupRequestView::Done(Ok(())),
            SetupRequest::Done(Err(m)) => SetupRequestView::Done(Err(m@)),
        }
    }
}

/// The reply to a request.
#[derive(Debug)]
pub enum SetupReply {
    /// A yes or no.
    Flag(bool),
    /// The value of a variable, if it is set.
    Value(Option<String>),
    /// Whether an operation succeeded, with its error if not.
    Status(Result<(), String>),
    /// How a command went: whether it could be run at all, whether it exited successfully,
    /// and what it printed.
    Output { ran: bool, success: bool, stdout: String },
    /// Nothing to tell.
    Nothing,
}

/// A reply as plain values.
pub enum SetupReplyView {
    Flag(bool),
    Value(Option<Seq<char>>),
    Status(Result<(), Seq<char>>),
    Output { ran: bool, success: bool, stdout: Seq<char> },
    Nothing,
}

impl View for SetupReply {
    type V = SetupReplyView;

    open spec fn view(&self) -> SetupReplyView {
        match self {
            SetupReply::Flag(b) => SetupReplyView::Flag(*b),
            SetupReply::Value(None) => SetupReplyView::Value(None),
            SetupReply::Value(Some(v)) => SetupReplyView::Value(Some(v@)),
            SetupReply::Status(Ok(())) => SetupReplyView::Status(Ok(())),
            SetupReply::Status(Err(e)) => SetupReplyView::Status(Err(e@)),
            SetupReply::Output { ran, success, stdout } => SetupReplyView::Output {
                ran: *ran,
                success: *success,
                stdout: stdout@,
            },
            SetupReply::Nothing => SetupReplyView::Nothing,
        }
    }
}

/// A reply read as a yes or no (a reply of another kind counts as no).
pub open spec fn reply_flag(r: SetupReplyView) -> bool {
    match r {
        SetupReplyView::Flag(b) => b,
        _ => false,
    }
}

/// A reply read as a variable's value (a reply of another kind counts as unset).
pub open spec fn reply_value(r: SetupReplyView) -> Option<Seq<char>> {
    match r {
        SetupReplyView::Value(v) => v,
        _ => None,
    }
}

/// A reply read as an operation's outcome (a reply of another kind counts as a failure
/// with an empty error).
pub open spec fn reply_status(r: SetupReplyView) -> Result<(), Seq<char>> {
    match r {
        SetupReplyView::Status(s) => s,
        _ => Err(Seq::empty()),
    }
}

/// A reply read as a command's output: `None` when it could not be run (a reply of another
/// kind counts so), else whether it succeeded and what it printed.
pub open spec fn reply_output(r: SetupReplyView) -> Option<(bool, Seq<char>)> {
    match r {
        SetupReplyView::Output { ran, success, stdout } => if ran {
            Some((success, stdout))
        } else {
            None
        },
        _ => None,
    }
}

/// Where setup stands.
#[derive(Debug, Clone, Copy, PartialEq, Eq, Structural)]
pub enum SetupStep {
    ReadRuntimeDir,
    CheckRuntimeDir,
    CheckStandardDir,
    CreateStandardDir,
    RestrictStandardDir,
    CreateFallbackDir,
    RestrictFallbackDir,
    RuntimeDirSet,
    ReadBus,
    ReadRuntimeDirForBus,
    CheckBusSocket,
    RunDaemon,
    RunLaunch,
    BusSet,
    CheckUserSession,
    Finished,
}

/// The state of setup: where it stands, the user it is for, and the bus socket path once
/// it is known.
pub struct SetupState {
    pub step: SetupStep,
    pub uid: u32,
    pub bus: Seq<char>,
}

/// One move: the state after it and what is asked next.
pub type SetupMove = (SetupState, SetupRequestView);

/// The move that begins the D-Bus part.
pub open spec fn bus_part(uid: u32, bus: Seq<char>) -> SetupMove {
    (SetupState { step: SetupStep::ReadBus, uid, bus }, SetupRequestView::ReadVar(BUS_VAR@))
}

/// The move that begins the last part, the look at the systemd user session.
pub open spec fn session_part(uid: u32, bus: Seq<char>) -> SetupMove {
    (SetupState { step: SetupStep::CheckUserSession, uid, bus }, SetupRequestView::Run(SetupCommand::UserSessionStatus))
}

/// The move that ends setup with an error.
pub open spec fn setup_failed(uid: u32, bus: Seq<char>, message: Seq<char>) -> SetupMove {
    (SetupState { step: SetupStep::Finished, uid, bus }, SetupRequestView::Done(Err(message)))
}

/// The next move, given the reply to the last request.
///
/// The runtime directory: one named by `XDG_RUNTIME_DIR` that exists is kept. Else the
/// standard `/run/user/<uid>` is used if it exists, else created (then made private; if
/// that fails, setup fails). If it cannot be created, `/tmp/waygreet-runtime-<uid>` is
/// created and made private instead (setup fails if either fails). The directory used is
/// then set as `XDG_RUNTIME_DIR`.
///
/// The bus: a set `DBUS_SESSION_BUS_ADDRESS` is kept. Else the `bus` socket in the runtime
/// directory (as `XDG_RUNTIME_DIR` names it now, or the standard one) is used if it exists.
/// Else `dbus-daemon` is run and the address it prints is used; failing that, `dbus-launch`
/// is run and the address it reports is used; failing that too, the bus is left unset.
/// Setup fails if either command cannot be run at all. The address used is set as
/// `DBUS_SESSION_BUS_ADDRESS`.
///
/// Last, the systemd user session is asked for its status, and setup succeeds.
pub open spec fn setup_transition(s: SetupState, reply: SetupReplyView) -> SetupMove {
    let uid = s.uid;
    let bus = s.bus;
    let at = |step: SetupStep| SetupState { step, uid, bus };
    let standard = runtime_dir_of(uid as nat);
    let fallback = fallback_runtime_dir_of(uid as nat);
    match s.step {
        SetupStep::ReadRuntimeDir => match reply_value(reply) {
            Some(d) => (at(SetupStep::CheckRuntimeDir), SetupRequestView::PathExists(d)),
            None => (at(SetupStep::CheckStandardDir), SetupRequestView::PathExists(standard)),
        },
        SetupStep::CheckRuntimeDir => if reply_flag(reply) {
            bus_part(uid, bus)
        } else {
            (at(SetupStep::CheckStandardDir), SetupRequestView::PathExists(standard))
        },
        SetupStep::CheckStandardDir => if reply_flag(reply) {
            (at(SetupStep::RuntimeDirSet), SetupRequestView::SetVar(RUNTIME_DIR_VAR@, standard))
        } else {
            (at(SetupStep::CreateStandardDir), SetupRequestView::CreateDir(standard))
        },
        SetupStep::CreateStandardDir => match reply_status(reply) {
            Ok(()) => (at(SetupStep::RestrictStandardDir), SetupRequestView::RestrictToOwner(standard)),
            Err(_) => (at(SetupStep::CreateFallbackDir), SetupRequestView::CreateDir(fallback)),
        },
        SetupStep::RestrictStandardDir => match reply_status(reply) {
            Ok(()) => (at(SetupStep::RuntimeDirSet), SetupRequestView::SetVar(RUNTIME_DIR_VAR@, standard)),
            Err(_) => setup_failed(uid, bus, "Failed to set XDG_RUNTIME_DIR permissions"@),
        },
        SetupStep::CreateFallbackDir => match reply_status(reply) {
            Ok(()) => (at(SetupStep::RestrictFallbackDir), SetupRequestView::RestrictToOwner(fallback)),
            Err(_) => setup_failed(uid, bus, "Failed to create fallback runtime directory"@),
        },
        SetupStep::RestrictFallbackDir => match reply_status(reply) {
            Ok(()) => (at(SetupStep::RuntimeDirSet), SetupRequestView::SetVar(RUNTIME_DIR_VAR@, fallback)),
            Err(e) => setup_failed(uid, bus, e),
        },
        SetupStep::RuntimeDirSet => bus_part(uid, bus),
        SetupStep::ReadBus => match reply_value(reply) {
            Some(_) => session_part(uid, bus),
            None => (at(SetupStep::ReadRuntimeDirForBus), SetupRequestView::ReadVar(RUNTIME_DIR_VAR@)),
        },
        SetupStep::ReadRuntimeDirForBus => {
            let path = bus_socket_path(reply_value(reply), uid as nat);
            (SetupState { step: SetupStep::CheckBusSocket, uid, bus: path }, SetupRequestView::PathExists(path))
        },
        SetupStep::CheckBusSocket => if reply_flag(reply) {
            (at(SetupStep::BusSet), SetupRequestView::SetVar(BUS_VAR@, socket_address(bus)))
        } else {
            (at(SetupStep::RunDaemon), SetupRequestView::Run(SetupCommand::DbusDaemon))
        },
        SetupStep::RunDaemon => match reply_output(reply) {
            None => setup_failed(uid, bus, "Failed to start dbus-daemon"@),
            Some((success, stdout)) => match daemon_address_of(success, stdout) {
                Some(a) => (at(SetupStep::BusSet), SetupRequestView::SetVar(BUS_VAR@, a)),
                None => (at(SetupStep::RunLaunch), SetupRequestView::Run(SetupCommand::DbusLaunch)),
            },
        },
        SetupStep::RunLaunch => match reply_output(reply) {
            None => setup_failed(uid, bus, "Failed to run dbus-launch"@),
            Some((success, stdout)) => match launch_address_of(success, stdout) {
                Some(a) => (at(SetupStep::BusSet), SetupRequestView::SetVar(BUS_VAR@, a)),
                None => session_part(uid, bus),
            },
        },
        SetupStep::BusSet => session_part(uid, bus),
        SetupStep::CheckUserSession => (at(SetupStep::Finished), SetupRequestView::Done(Ok(()))),
        SetupStep::Finished => (at(SetupStep::Finished), SetupRequestView::Done(Ok(()))),
    }
}

/// Session environment setup in progress.
pub struct SessionSetup {
    step: SetupStep,
    uid: u32,
    bus: String,
}

impl SessionSetup {
    /// The state of setup.
    pub closed spec fn state(&self) -> SetupState {
        SetupState { step: self.step, uid: self.uid, bus: self.bus@ }
    }

    /// Begins setup for user `uid`: the first thing read is `XDG_RUNTIME_DIR`.
    pub fn start(uid: u32) -> (res: (Self, SetupRequest))
        ensures
            res.0.state() == (SetupState { step: SetupStep::ReadRuntimeDir, uid, bus: Seq::empty() }),
            res.1@ == SetupRequestView::ReadVar(RUNTIME_DIR_VAR@),
    {
        let setup = SessionSetup { step: SetupStep::ReadRuntimeDir, uid, bus: String::new() };
        (setup, SetupRequest::ReadVar(RUNTIME_DIR_VAR))
    }

    fn to_bus_part(&mut self) -> (req: SetupRequest)
        ensures
            (final(self).state(), req@) == bus_part(old(self).state().uid, old(self).state().bus),
    {
        self.step = SetupStep::ReadBus;
        SetupRequest::ReadVar(BUS_VAR)
    }

    fn to_session_part(&mut self) -> (req: SetupRequest)
        ensures
            (final(self).state(), req@) == session_part(old(self).state().uid, old(self).state().bus),
    {
        self.step = SetupStep::CheckUserSession;
        SetupRequest::Run(SetupCommand::UserSessionStatus)
    }

    fn fail(&mut self, message: &str) -> (req: SetupRequest)
        ensures
            (final(self).state(), req@) == setup_failed(old(self).state().uid, old(self).state().bus, message@),
    {
        self.step = SetupStep::Finished;
        SetupRequest::Done(Err(String::from_str(message)))
    }

    /// Takes the reply to the last request and says what comes next.
    pub fn next(&mut self, reply: SetupReply) -> (req: SetupRequest)
        ensures
            (final(self).state(), req@) == setup_transition(old(self).state(), reply@),
    {
        let standard = runtime_dir_for(self.uid);
        let fallback = fallback_runtime_dir(self.uid);
        match self.step {
            SetupStep::ReadRuntimeDir => match reply {
                SetupReply::Value(Some(d)) => {
                    self.step = SetupStep::CheckRuntimeDir;
                    SetupRequest::PathExists(d)
                },
                _ => {
                    self.step = SetupStep::CheckStandardDir;
                    SetupRequest::PathExists(standard)
                },
            },
            SetupStep::CheckRuntimeDir => match reply {
                SetupReply::Flag(true) => self.to_bus_part(),
                _ => {
                    self.step = SetupStep::CheckStandardDir;
                    SetupRequest::PathExists(standard)
                },
            },
            SetupStep::CheckStandardDir => match reply {
                SetupReply::Flag(true) => {
                    self.step = SetupStep::RuntimeDirSet;
                    SetupRequest::SetVar(RUNTIME_DIR_VAR, standard)
                },
                _ => {
                    self.step = SetupStep::CreateStandardDir;
                    SetupRequest::CreateDir(standard)
                },
            },
            SetupStep::CreateStandardDir => match reply {
                SetupReply::Status(Ok(())) => {
                    self.step = SetupStep::RestrictStandardDir;
                    SetupRequest::RestrictToOwner(standard)
                },
                _ => {
                    self.step = SetupStep::CreateFallbackDir;
                    SetupRequest::CreateDir(fallback)
                },
            },
            SetupStep::RestrictStandardDir => match reply {
                SetupReply::Status(Ok(())) => {
                    self.step = SetupStep::RuntimeDirSet;
                    SetupRequest::SetVar(RUNTIME_DIR_VAR, standard)
                },
                _ => self.fail("Failed to set XDG_RUNTIME_DIR permissions"),
            },
            SetupStep::CreateFallbackDir => match reply {
                SetupReply::Status(Ok(())) => {
                    self.step = SetupStep::RestrictFallbackDir;
                    SetupRequest::RestrictToOwner(fallback)
                },
                _ => self.fail("Failed to create fallback runtime directory"),
            },
            SetupStep::RestrictFallbackDir => match reply {
                SetupReply::Status(Ok(())) => {
                    self.step = SetupStep::RuntimeDirSet;
                    SetupRequest::SetVar(RUNTIME_DIR_VAR, fallback)
                },
                SetupReply::Status(Err(e)) => {
                    self.step = SetupStep::Finished;
                    SetupRequest::Done(Err(e))
                },
                _ => {
                    self.step = SetupStep::Finished;
                    SetupRequest::Done(Err(String::new()))
                },
            },
            SetupStep::RuntimeDirSet => self.to_bus_part(),
            SetupStep::ReadBus => match reply {
                SetupReply::Value(Some(_)) => self.to_session_part(),
                _ => {
                    self.step = SetupStep::ReadRuntimeDirForBus;
                    SetupRequest::ReadVar(RUNTIME_DIR_VAR)
                },
            },
            SetupStep::ReadRuntimeDirForBus => {
                let path = match reply {
                    SetupReply::Value(Some(d)) => bus_socket(Some(d.as_str()), self.uid),
                    _ => bus_socket(None, self.uid),
                };
                self.step = SetupStep::CheckBusSocket;
                self.bus = path.clone();
                SetupRequest::PathExists(path)
            },
            SetupStep::CheckBusSocket => match reply {
                SetupReply::Flag(true) => {
                    self.step = SetupStep::BusSet;
                    SetupRequest::SetVar(BUS_VAR, bus_address(self.bus.as_str()))
                },
                _ => {
                    self.step = SetupStep::RunDaemon;
                    SetupRequest::Run(SetupCommand::DbusDaemon)
                },
            },
            SetupStep::RunDaemon => match reply {
                SetupReply::Output { ran: true, success, stdout } => match daemon_address(success, stdout.as_str()) {
                    Some(a) => {
                        self.step = SetupStep::BusSet;
                        SetupRequest::SetVar(BUS_VAR, a)
                    },
                    None => {
                        self.step = SetupStep::RunLaunch;
                        SetupRequest::Run(SetupCommand::DbusLaunch)
                    },
                },
                _ => self.fail("Failed to start dbus-daemon"),
            },
            SetupStep::RunLaunch => match reply {
                SetupReply::Output { ran: true, success, stdout } => match launch_address(success, stdout.as_str()) {
                    Some(a) => {
                        self.step = SetupStep::BusSet;
                        SetupRequest::SetVar(BUS_VAR, a)
                    },
                    None => self.to_session_part(),
                },
                _ => self.fail("Failed to run dbus-launch"),
            },
            SetupStep::BusSet => self.to_session_part(),
            SetupStep::CheckUserSession => {
                self.step = SetupStep::Finished;
                SetupRequest::Done(Ok(()))
            },
            SetupStep::Finished => SetupRequest::Done(Ok(())),
        }
    }
}

/// How many more requests a step can lead to, at most.
pub open spec fn setup_rank(step: SetupStep) -> nat {
    match step {
        SetupStep::ReadRuntimeDir => 15,
        SetupStep::CheckRuntimeDir => 14,
        SetupStep::CheckStandardDir => 13,
        SetupStep::CreateStandardDir => 12,
        SetupStep::RestrictStandardDir => 11,
        SetupStep::CreateFallbackDir => 10,
        SetupStep::RestrictFallbackDir => 9,
        SetupStep::RuntimeDirSet => 8,
        SetupStep::ReadBus => 7,
        SetupStep::ReadRuntimeDirForBus => 6,
        SetupStep::CheckBusSocket => 5,
        SetupStep::RunDaemon => 4,
        SetupStep::RunLaunch => 3,
        SetupStep::BusSet => 2,
        SetupStep::CheckUserSession => 1,
        SetupStep::Finished => 0,
    }
}

/// Setup always ends: every reply leads closer to the end, which is reached exactly when
/// `Done` is asked for.
pub proof fn lemma_setup_terminates(s: SetupState, reply: SetupReplyView)
    requires
        s.step != SetupStep::Finished,
    ensures
        setup_rank(setup_transition(s, reply).0.step) < setup_rank(s.step),
        (setup_transition(s, reply).0.step == SetupStep::Finished) <==> (setup_transition(s, reply).1 is Done),
{
}

/// The value that a request sets `var` to, if it sets that variable.
pub open spec fn value_set(r: SetupRequestView, var: Seq<char>) -> Option<Seq<char>> {
    match r {
        SetupRequestView::SetVar(v, x) => if v == var {
            Some(x)
        } else {
            None
        },
        _ => None,
    }
}

/// The runtime directory that setup sets is always the standard one or the fallback one of
/// its user, and only after that directory exists or was created and made private.
pub proof fn lemma_setup_runtime_dir(s: SetupState, reply: SetupReplyView)
    ensures
        value_set(setup_transition(s, reply).1, RUNTIME_DIR_VAR@) is Some ==> {
            let d = value_set(setup_transition(s, reply).1, RUNTIME_DIR_VAR@)->0;
            ||| d == runtime_dir_of(s.uid as nat) && (
                (s.step == SetupStep::CheckStandardDir && reply_flag(reply))
                || (s.step == SetupStep::RestrictStandardDir && reply_status(reply) is Ok))
            ||| d == fallback_runtime_dir_of(s.uid as nat) && s.step == SetupStep::RestrictFallbackDir
                && reply_status(reply) is Ok
        },
{
    reveal_strlit("XDG_RUNTIME_DIR");
    reveal_strlit("DBUS_SESSION_BUS_ADDRESS");
    assert(RUNTIME_DIR_VAR@.len() != BUS_VAR@.len());
}

/// Setup fails only when a directory cannot be created or made private on the way to a
/// runtime directory, or a D-Bus command cannot be run at all; a bus address already set,
/// or a bus socket found, is never replaced by a started daemon.
pub proof fn lemma_setup_failures(s: SetupState, reply: SetupReplyView)
    ensures
        setup_transition(s, reply).1 matches SetupRequestView::Done(Err(_)) ==> (
            (s.step == SetupStep::RestrictStandardDir || s.step == SetupStep::CreateFallbackDir
                || s.step == SetupStep::RestrictFallbackDir) && reply_status(reply) is Err)
            || ((s.step == SetupStep::RunDaemon || s.step == SetupStep::RunLaunch) && reply_output(reply) is None),
        s.step == SetupStep::ReadBus && reply_value(reply) is Some
            ==> setup_transition(s, reply).1 == SetupRequestView::Run(SetupCommand::UserSessionStatus),
        s.step == SetupStep::CheckBusSocket && reply_flag(reply)
            ==> setup_transition(s, reply).1 == SetupRequestView::SetVar(BUS_VAR@, socket_address(s.bus)),
{
}

} // verus!
