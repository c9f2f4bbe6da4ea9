//! The Orca screen reader: starting it (after making sure the AT-SPI bus is up), stopping
//! it and restarting it, as a state machine that says what to ask or do next and takes the
//! answer.

use vstd::prelude::*;

use crate::config::AccessibilityConfig;
use crate::text::clone_strings;

verus! {

/// The systemd user unit of the AT-SPI bus.
pub const ATSPI_UNIT: &'static str = "at-spi-dbus-bus.service";

/// The systemd user unit of Orca.
pub const ORCA_UNIT: &'static str = "orca.service";

/// The environment that Orca is started with, so that accessibility is on.
pub open spec fn orca_environment_spec() -> Seq<(Seq<char>, Seq<char>)> {
    seq![("GTK_MODULES"@, "gail:atk-bridge"@), ("GNOME_ACCESSIBILITY"@, "1"@)]
}

/// How Orca is spawned: the program, its arguments and the variables set for it.
pub struct OrcaCommand {
    pub program: String,
    pub args: Vec<String>,
    pub env: Vec<(String, String)>,
}

/// The command that spawns Orca for an accessibility configuration.
pub fn orca_command(config: &AccessibilityConfig) -> (res: OrcaCommand)
    ensures
        res.program@ == config.orca_path@,
        res.args@ == config.orca_args@,
        res.env.len() == 2,
        forall|i: int| 0 <= i < 2 ==> (#[trigger] res.env[i].0@, res.env[i].1@) == orca_environment_spec()[i],
{
    let args = clone_strings(&config.orca_args);
    let mut env: Vec<(String, String)> = Vec::new();
    env.push((String::from_str("GTK_MODULES"), String::from_str("gail:atk-bridge")));
    env.push((String::from_str("GNOME_ACCESSIBILITY"), String::from_str("1")));
    OrcaCommand { program: config.orca_path.clone(), args, env }
}

/// What Orca control asks for next.
#[derive(Debug)]
pub enum OrcaRequest {
    /// Is a process named `orca` running?
    OrcaRunning,
    /// Is the systemd user session available and responsive?
    UserSessionAvailable,
    /// Is `systemctl` there at all?
    SystemctlAvailable,
    /// Does this unit exist?
    UnitAvailable(&'static str),
    /// Is this unit active?
    UnitActive(&'static str),
    /// Start this unit.
    StartUnit(&'static str),
    /// Stop this unit.
    StopUnit(&'static str),
    /// Spawn `at-spi-bus-launcher --launch-immediately` in the background.
    SpawnBusLauncher,
    /// Spawn Orca (see [`orca_command`]) and keep its handle; the reply tells whether it was
    /// spawned.
    SpawnOrca,
    /// Kill the Orca process that was spawned, if there is one, and drop its handle.
    KillOrca,
    /// Wait this many milliseconds.
    Sleep(u64),
    /// The operation is over, with this outcome.
    Done(Result<(), String>),
}

/// A request as plain values.
pub enum OrcaRequestView {
    OrcaRunning,
    UserSessionAvailable,
    SystemctlAvailable,
    UnitAvailable(Seq<char>),
    UnitActive(Seq<char>),
    StartUnit(Seq<char>),
    StopUnit(Seq<char>),
    SpawnBusLauncher,
    SpawnOrca,
    KillOrca,
    Sleep(u64),
    Done(Result<(), Seq<char>>),
}

impl View for OrcaRequest {
    type V = OrcaRequestView;

    open spec fn view(&self) -> OrcaRequestView {
        match self {
            OrcaRequest::OrcaRunning => OrcaRequestView::OrcaRunning,
            OrcaRequest::UserSessionAvailable => OrcaRequestView::UserSessionAvailable,
            OrcaRequest::SystemctlAvailable => OrcaRequestView::SystemctlAvailable,
            OrcaRequest::UnitAvailable(u) => OrcaRequestView::UnitAvailable(u@),
            OrcaRequest::UnitActive(u) => OrcaRequestView::UnitActive(u@),
            OrcaRequest::StartUnit(u) => OrcaRequestView::StartUnit(u@),
            OrcaRequest::StopUnit(u) => OrcaRequestView::StopUnit(u@),
            OrcaRequest::SpawnBusLauncher => OrcaRequestView::SpawnBusLauncher,
            OrcaRequest::SpawnOrca => OrcaRequestView::SpawnOrca,
            OrcaRequest::KillOrca => OrcaRequestView::KillOrca,
            OrcaRequest::Sleep(ms) => OrcaRequestView::Sleep(*ms),
            OrcaRequest::Done(Ok(())) => OrcaRequestView::Done(Ok(())),
            OrcaRequest::Done(Err(m)) => OrcaRequestView::Done(Err(m@)),
        }
    }
}

/// Where Orca control stands.
#[derive(Debug, Clone, Copy, PartialEq, Eq, Structural)]
pub enum OrcaStep {
    /// Nothing under way.
    Idle,
    CheckRunning,
    AskSession,
    BusAvailable,
    BusActive,
    BusStart,
    SpawnLauncher,
    BusWait,
    Spawn,
    SpawnWait,
    Verify,
    StopSystemctl,
    StopActive,
    StopUnit,
    Kill,
    RestartWait,
    UnitAvailable,
    UnitStart,
    UnitWait,
    UnitVerify,
}

/// Where control stands, whether Orca was started by this control, and whether the
/// stopping under way is part of a restart.
pub struct OrcaState {
    pub step: OrcaStep,
    pub started: bool,
    pub restarting: bool,
}

/// One move of the machine: the state after it and what is asked next.
pub type OrcaMove = (OrcaState, OrcaRequestView);

/// The error of a failed spawn.
pub open spec fn spawn_error(orca_path: Seq<char>) -> Seq<char> {
    "Failed to spawn "@ + orca_path
}

/// The error of a start through systemd when the unit does not exist.
pub open spec fn unit_missing_error() -> Seq<char> {
    "orca.service not found"@
}

/// The error of a start through systemd when the unit is not active afterwards.
pub open spec fn unit_inactive_error() -> Seq<char> {
    "Orca service did not start properly"@
}

/// The first move of a start through systemd: whether the unit exists.
pub open spec fn orca_unit_start_move(started: bool) -> OrcaMove {
    (OrcaState { step: OrcaStep::UnitAvailable, started, restarting: false }, OrcaRequestView::UnitAvailable(ORCA_UNIT@))
}

/// The first move of a start: whether Orca already runs.
pub open spec fn orca_start_move(started: bool) -> OrcaMove {
    (OrcaState { step: OrcaStep::CheckRunning, started, restarting: false }, OrcaRequestView::OrcaRunning)
}

/// The first move of a stop (or a restart): nothing to do unless this control started
/// Orca; otherwise stop the systemd unit if systemctl is there and it is active, then kill
/// the process.
pub open spec fn orca_stop_move(started: bool, restarting: bool) -> OrcaMove {
    if !started {
        if restarting {
            (OrcaState { step: OrcaStep::RestartWait, started, restarting: false }, OrcaRequestView::Sleep(500))
        } else {
            (OrcaState { step: OrcaStep::Idle, started, restarting: false }, OrcaRequestView::Done(Ok(())))
        }
    } else {
        (OrcaState { step: OrcaStep::StopSystemctl, started, restarting }, OrcaRequestView::SystemctlAvailable)
    }
}

/// The next move, given that the last request was answered with `ok` (and, for a failed
/// start of a unit, the error `message`).
///
/// Starting: an Orca that already runs is left alone (success, and not counted as started
/// here). Otherwise the AT-SPI bus unit is started when the user session responds, the unit
/// exists and it is not active; the bus launcher is spawned in any case, then 200 ms pass.
/// Orca is spawned; if that fails, the start fails with the spawn error. Otherwise, after
/// 1500 ms and one more look at whether it runs, the start succeeds and Orca counts as
/// started. Stopping ends with Orca killed and no longer counted as started; a restart then
/// waits 500 ms and starts again. A start through systemd needs the unit to exist and to
/// start, waits 1000 ms, and succeeds only if the unit is then active.
pub open spec fn orca_transition(s: OrcaState, ok: bool, message: Seq<char>, orca_path: Seq<char>) -> OrcaMove {
    let started = s.started;
    let restarting = s.restarting;
    let at = |step: OrcaStep| OrcaState { step, started, restarting };
    match s.step {
        OrcaStep::Idle => (at(OrcaStep::Idle), OrcaRequestView::Done(Ok(()))),
        OrcaStep::CheckRunning => if ok {
            (at(OrcaStep::Idle), OrcaRequestView::Done(Ok(())))
        } else {
            (at(OrcaStep::AskSession), OrcaRequestView::UserSessionAvailable)
        },
        OrcaStep::AskSession => if ok {
            (at(OrcaStep::BusAvailable), OrcaRequestView::UnitAvailable(ATSPI_UNIT@))
        } else {
            (at(OrcaStep::SpawnLauncher), OrcaRequestView::SpawnBusLauncher)
        },
        OrcaStep::BusAvailable => if ok {
            (at(OrcaStep::BusActive), OrcaRequestView::UnitActive(ATSPI_UNIT@))
        } else {
            (at(OrcaStep::SpawnLauncher), OrcaRequestView::SpawnBusLauncher)
        },
        OrcaStep::BusActive => if ok {
            (at(OrcaStep::SpawnLauncher), OrcaRequestView::SpawnBusLauncher)
        } else {
            (at(OrcaStep::BusStart), OrcaRequestView::StartUnit(ATSPI_UNIT@))
        },
        OrcaStep::BusStart => (at(OrcaStep::SpawnLauncher), OrcaRequestView::SpawnBusLauncher),
        OrcaStep::SpawnLauncher => (at(OrcaStep::BusWait), OrcaRequestView::Sleep(200)),
        OrcaStep::BusWait => (at(OrcaStep::Spawn), OrcaRequestView::SpawnOrca),
        OrcaStep::Spawn => if ok {
            (at(OrcaStep::SpawnWait), OrcaRequestView::Sleep(1500))
        } else {
            (at(OrcaStep::Idle), OrcaRequestView::Done(Err(spawn_error(orca_path))))
        },
        OrcaStep::SpawnWait => (at(OrcaStep::Verify), OrcaRequestView::OrcaRunning),
        OrcaStep::Verify => (
            OrcaState { step: OrcaStep::Idle, started: true, restarting },
            OrcaRequestView::Done(Ok(())),
        ),
        OrcaStep::StopSystemctl => if ok {
            (at(OrcaStep::StopActive), OrcaRequestView::UnitActive(ORCA_UNIT@))
        } else {
            (at(OrcaStep::Kill), OrcaRequestView::KillOrca)
        },
        OrcaStep::StopActive => if ok {
            (at(OrcaStep::StopUnit), OrcaRequestView::StopUnit(ORCA_UNIT@))
        } else {
            (at(OrcaStep::Kill), OrcaRequestView::KillOrca)
        },
        OrcaStep::StopUnit => (at(OrcaStep::Kill), OrcaRequestView::KillOrca),
        OrcaStep::Kill => if restarting {
            (
                OrcaState { step: OrcaStep::RestartWait, started: false, restarting: false },
                OrcaRequestView::Sleep(500),
            )
        } else {
            (
                OrcaState { step: OrcaStep::Idle, started: false, restarting: false },
                OrcaRequestView::Done(Ok(())),
            )
        },
        OrcaStep::RestartWait => orca_start_move(started),
        OrcaStep::UnitAvailable => if ok {
            (at(OrcaStep::UnitStart), OrcaRequestView::StartUnit(ORCA_UNIT@))
        } else {
            (at(OrcaStep::Idle), OrcaRequestView::Done(Err(unit_missing_error())))
        },
        OrcaStep::UnitStart => if ok {
            (at(OrcaStep::UnitWait), OrcaRequestView::Sleep(1000))
        } else {
            (at(OrcaStep::Idle), OrcaRequestView::Done(Err(message)))
        },
        OrcaStep::UnitWait => (at(OrcaStep::UnitVerify), OrcaRequestView::UnitActive(ORCA_UNIT@)),
        OrcaStep::UnitVerify => if ok {
            (at(OrcaStep::Idle), OrcaRequestView::Done(Ok(())))
        } else {
            (at(OrcaStep::Idle), OrcaRequestView::Done(Err(unit_inactive_error())))
        },
    }
}

/// Control of the Orca screen reader.
pub struct OrcaControl {
    orca_path: String,
    step: OrcaStep,
    started: bool,
    restarting: bool,
}

impl OrcaControl {
    /// The state of the machine.
    pub closed spec fn state(&self) -> OrcaState {
        OrcaState { step: self.step, started: self.started, restarting: self.restarting }
    }

    /// The Orca program that is spawned.
    pub closed spec fn path(&self) -> Seq<char> {
        self.orca_path@
    }

    /// Control for the Orca of an accessibility configuration, with nothing under way and
    /// Orca not started.
    pub fn new(config: &AccessibilityConfig) -> (res: Self)
        ensures
            res.state() == (OrcaState { step: OrcaStep::Idle, started: false, restarting: false }),
            res.path() == config.orca_path@,
    {
        OrcaControl { orca_path: config.orca_path.clone(), step: OrcaStep::Idle, started: false, restarting: false }
    }

    /// Whether Orca was started by this control and not stopped since.
    pub fn is_started(&self) -> (res: bool)
        ensures
            res == self.state().started,
    {
        self.started
    }

    /// Begins starting Orca.
    pub fn start(&mut self) -> (req: OrcaRequest)
        ensures
            (final(self).state(), req@) == orca_start_move(old(self).state().started),
            final(self).path() == old(self).path(),
    {
        self.step = OrcaStep::CheckRunning;
        self.restarting = false;
        OrcaRequest::OrcaRunning
    }

    /// Begins starting Orca through its systemd user unit.
    pub fn start_via_systemd(&mut self) -> (req: OrcaRequest)
        ensures
            (final(self).state(), req@) == orca_unit_start_move(old(self).state().started),
            final(self).path() == old(self).path(),
    {
        self.step = OrcaStep::UnitAvailable;
        self.restarting = false;
        OrcaRequest::UnitAvailable(ORCA_UNIT)
    }

    fn stop_or_restart(&mut self, restarting: bool) -> (req: OrcaRequest)
        ensures
            (final(self).state(), req@) == orca_stop_move(old(self).state().started, restarting),
            final(self).path() == old(self).path(),
    {
        if !self.started {
            if restarting {
                self.step = OrcaStep::RestartWait;
                self.restarting = false;
                OrcaRequest::Sleep(500)
            } else {
                self.step = OrcaStep::Idle;
                self.restarting = false;
                OrcaRequest::Done(Ok(()))
            }
        } else {
            self.step = OrcaStep::StopSystemctl;
            self.restarting = restarting;
            OrcaRequest::SystemctlAvailable
        }
    }

    /// Begins stopping Orca.
    pub fn stop(&mut self) -> (req: OrcaRequest)
        ensures
            (final(self).state(), req@) == orca_stop_move(old(self).state().started, false),
            final(self).path() == old(self).path(),
    {
        self.stop_or_restart(false)
    }

    /// Begins restarting Orca: stopping it, waiting, and starting it.
    pub fn restart(&mut self) -> (req: OrcaRequest)
        ensures
            (final(self).state(), req@) == orca_stop_move(old(self).state().started, true),
            final(self).path() == old(self).path(),
    {
        self.stop_or_restart(true)
    }

    /// Takes the answer to the last request (and, for a failed start of a unit, its error)
    /// and says what comes next.
    pub fn next(&mut self, ok: bool, message: String) -> (req: OrcaRequest)
        ensures
            (final(self).state(), req@) == orca_transition(old(self).state(), ok, message@, old(self).path()),
            final(self).path() == old(self).path(),
    {
        let atspi: &'static str = ATSPI_UNIT;
        let orca_unit: &'static str = ORCA_UNIT;
        match self.step {
            OrcaStep::Idle => OrcaRequest::Done(Ok(())),
            OrcaStep::CheckRunning => if ok {
                self.step = OrcaStep::Idle;
                OrcaRequest::Done(Ok(()))
            } else {
                self.step = OrcaStep::AskSession;
                OrcaRequest::UserSessionAvailable
            },
            OrcaStep::AskSession => if ok {
                self.step = OrcaStep::BusAvailable;
                OrcaRequest::UnitAvailable(atspi)
            } else {
                self.step = OrcaStep::SpawnLauncher;
                OrcaRequest::SpawnBusLauncher
            },
            OrcaStep::BusAvailable => if ok {
                self.step = OrcaStep::BusActive;
                OrcaRequest::UnitActive(atspi)
            } else {
                self.step = OrcaStep::SpawnLauncher;
                OrcaRequest::SpawnBusLauncher
            },
            OrcaStep::BusActive => if ok {
                self.step = OrcaStep::SpawnLauncher;
                OrcaRequest::SpawnBusLauncher
            } else {
                self.step = OrcaStep::BusStart;
                OrcaRequest::StartUnit(atspi)
            },
            OrcaStep::BusStart => {
                self.step = OrcaStep::SpawnLauncher;
                OrcaRequest::SpawnBusLauncher
            },
            OrcaStep::SpawnLauncher => {
                self.step = OrcaStep::BusWait;
                OrcaRequest::Sleep(200)
            },
            OrcaStep::BusWait => {
                self.step = OrcaStep::Spawn;
                OrcaRequest::SpawnOrca
            },
            OrcaStep::Spawn => if ok {
                self.step = OrcaStep::SpawnWait;
                OrcaRequest::Sleep(1500)
            } else {
                self.step = OrcaStep::Idle;
                let message = String::from_str("Failed to spawn ").concat(self.orca_path.as_str());
                OrcaRequest::Done(Err(message))
            },
            OrcaStep::SpawnWait => {
                self.step = OrcaStep::Verify;
                OrcaRequest::OrcaRunning
            },
            OrcaStep::Verify => {
                self.step = OrcaStep::Idle;
                self.started = true;
                OrcaRequest::Done(Ok(()))
            },
            OrcaStep::StopSystemctl => if ok {
                self.step = OrcaStep::StopActive;
                OrcaRequest::UnitActive(orca_unit)
            } else {
                self.step = OrcaStep::Kill;
                OrcaRequest::KillOrca
            },
            OrcaStep::StopActive => if ok {
                self.step = OrcaStep::StopUnit;
                OrcaRequest::StopUnit(orca_unit)
            } else {
                self.step = OrcaStep::Kill;
                OrcaRequest::KillOrca
            },
            OrcaStep::StopUnit => {
                self.step = OrcaStep::Kill;
                OrcaRequest::KillOrca
            },
            OrcaStep::Kill => {
                self.started = false;
                if self.restarting {
                    self.step = OrcaStep::RestartWait;
                    self.restarting = false;
                    OrcaRequest::Sleep(500)
                } else {
                    self.step = OrcaStep::Idle;
                    OrcaRequest::Done(Ok(()))
                }
            },
            OrcaStep::RestartWait => {
                self.step = OrcaStep::CheckRunning;
                self.restarting = false;
                OrcaRequest::OrcaRunning
            },
            OrcaStep::UnitAvailable => if ok {
                self.step = OrcaStep::UnitStart;
                OrcaRequest::StartUnit(orca_unit)
            } else {
                self.step = OrcaStep::Idle;
                OrcaRequest::Done(Err(String::from_str("orca.service not found")))
            },
            OrcaStep::UnitStart => if ok {
                self.step = OrcaStep::UnitWait;
                OrcaRequest::Sleep(1000)
            } else {
                self.step = OrcaStep::Idle;
                OrcaRequest::Done(Err(message))
            },
            OrcaStep::UnitWait => {
                self.step = OrcaStep::UnitVerify;
                OrcaRequest::UnitActive(orca_unit)
            },
            OrcaStep::UnitVerify => {
                self.step = OrcaStep::Idle;
                if ok {
                    OrcaRequest::Done(Ok(()))
                } else {
                    OrcaRequest::Done(Err(String::from_str("Orca service did not start properly")))
                }
            },
        }
    }
}

/// How many more requests a step can lead to, at most (a restart counts its start too).
pub open spec fn orca_rank(s: OrcaState) -> nat {
    let start_len: nat = 10;
    match s.step {
        OrcaStep::Idle => 0,
        OrcaStep::CheckRunning => 10,
        OrcaStep::AskSession => 9,
        OrcaStep::BusAvailable => 8,
        OrcaStep::BusActive => 7,
        OrcaStep::BusStart => 6,
        OrcaStep::SpawnLauncher => 5,
        OrcaStep::BusWait => 4,
        OrcaStep::Spawn => 3,
        OrcaStep::SpawnWait => 2,
        OrcaStep::Verify => 1,
        OrcaStep::RestartWait => start_len + 1,
        OrcaStep::StopSystemctl => start_len + 5,
        OrcaStep::StopActive => start_len + 4,
        OrcaStep::StopUnit => start_len + 3,
        OrcaStep::Kill => start_len + 2,
        OrcaStep::UnitAvailable => 4,
        OrcaStep::UnitStart => 3,
        OrcaStep::UnitWait => 2,
        OrcaStep::UnitVerify => 1,
    }
}

/// Every operation of Orca control ends: each answer leads closer to the end, and the
/// machine is idle exactly when it has said `Done`.
pub proof fn lemma_orca_terminates(s: OrcaState, ok: bool, message: Seq<char>, orca_path: Seq<char>)
    requires
        s.step != OrcaStep::Idle,
    ensures
        orca_rank(orca_transition(s, ok, message, orca_path).0) < orca_rank(s),
        (orca_transition(s, ok, message, orca_path).0.step == OrcaStep::Idle)
            <==> (orca_transition(s, ok, message, orca_path).1 is Done),
{
}

/// A start fails only when Orca cannot be spawned (with the spawn error) or, through
/// systemd, when its unit is missing, fails to start (with that error) or is not active
/// afterwards; a stop always succeeds and leaves Orca not started; a start that succeeds
/// after spawning leaves Orca counted as started, and nothing else changes that count.
pub proof fn lemma_orca_outcomes(s: OrcaState, ok: bool, message: Seq<char>, orca_path: Seq<char>)
    ensures
        orca_transition(s, ok, message, orca_path).1 matches OrcaRequestView::Done(Err(m)) ==> !ok && (
            (s.step == OrcaStep::Spawn && m == spawn_error(orca_path))
            || (s.step == OrcaStep::UnitAvailable && m == unit_missing_error())
            || (s.step == OrcaStep::UnitStart && m == message)
            || (s.step == OrcaStep::UnitVerify && m == unit_inactive_error())),
        s.step == OrcaStep::Kill ==> !orca_transition(s, ok, message, orca_path).0.started,
        s.step == OrcaStep::Verify ==> orca_transition(s, ok, message, orca_path).0.started,
        orca_transition(s, ok, message, orca_path).0.started != s.started
            ==> s.step == OrcaStep::Verify || s.step == OrcaStep::Kill,
{
}

/// The moves that Orca control makes from state `s` when its requests are answered with
/// `answers`, one after the other.
pub open spec fn orca_run(s: OrcaState, answers: Seq<bool>, message: Seq<char>, orca_path: Seq<char>) -> Seq<OrcaMove>
    decreases answers.len(),
{
    if answers.len() == 0 {
        Seq::empty()
    } else {
        let mv = orca_transition(s, answers[0], message, orca_path);
        seq![mv] + orca_run(mv.0, answers.drop_first(), message, orca_path)
    }
}

/// Whether control is on its way to stopping Orca and has not yet asked for it to be
/// killed.
pub open spec fn stopping(step: OrcaStep) -> bool {
    step == OrcaStep::StopSystemctl || step == OrcaStep::StopActive || step == OrcaStep::StopUnit
}

proof fn lemma_run_kills_before_done(s: OrcaState, answers: Seq<bool>, message: Seq<char>, orca_path: Seq<char>)
    requires
        stopping(s.step),
    ensures
        forall|j: int| 0 <= j < orca_run(s, answers, message, orca_path).len()
            && (#[trigger] orca_run(s, answers, message, orca_path)[j]).1 is Done
            ==> exists|i: int| 0 <= i < j && orca_run(s, answers, message, orca_path)[i].1 == OrcaRequestView::KillOrca,
    decreases answers.len(),
{
    if answers.len() > 0 {
        let mv = orca_transition(s, answers[0], message, orca_path);
        let rest = orca_run(mv.0, answers.drop_first(), message, orca_path);
        let run = orca_run(s, answers, message, orca_path);
        assert(run == seq![mv] + rest);
        if stopping(mv.0.step) {
            lemma_run_kills_before_done(mv.0, answers.drop_first(), message, orca_path);
            assert forall|j: int| 0 <= j < run.len() && (#[trigger] run[j]).1 is Done
                implies exists|i: int| 0 <= i < j && run[i].1 == OrcaRequestView::KillOrca by {
                assert(j > 0);
                assert(run[j] == rest[j - 1]);
                let i = choose|i: int| 0 <= i < j - 1 && rest[i].1 == OrcaRequestView::KillOrca;
                assert(run[i + 1] == rest[i]);
            }
        } else {
            assert(mv.1 == OrcaRequestView::KillOrca);
            assert forall|j: int| 0 <= j < run.len() && (#[trigger] run[j]).1 is Done
                implies exists|i: int| 0 <= i < j && run[i].1 == OrcaRequestView::KillOrca by {
                assert(run[0] == mv);
            }
        }
    }
}

proof fn lemma_run_idle_stays_stopped(s: OrcaState, answers: Seq<bool>, message: Seq<char>, orca_path: Seq<char>)
    requires
        s.step == OrcaStep::Idle,
        !s.started,
    ensures
        forall|j: int| 0 <= j < orca_run(s, answers, message, orca_path).len()
            ==> (#[trigger] orca_run(s, answers, message, orca_path)[j]).1 is Done
                && !orca_run(s, answers, message, orca_path)[j].0.started,
    decreases answers.len(),
{
    if answers.len() > 0 {
        let mv = orca_transition(s, answers[0], message, orca_path);
        let rest = orca_run(mv.0, answers.drop_first(), message, orca_path);
        let run = orca_run(s, answers, message, orca_path);
        assert(run == seq![mv] + rest);
        lemma_run_idle_stays_stopped(mv.0, answers.drop_first(), message, orca_path);
        assert forall|j: int| 0 <= j < run.len() implies (#[trigger] run[j]).1 is Done && !run[j].0.started by {
            if j > 0 {
                assert(run[j] == rest[j - 1]);
            }
        }
    }
}

proof fn lemma_run_stop_ends_stopped(s: OrcaState, answers: Seq<bool>, message: Seq<char>, orca_path: Seq<char>)
    requires
        stopping(s.step) || s.step == OrcaStep::Kill,
        !s.restarting,
    ensures
        forall|j: int| 0 <= j < orca_run(s, answers, message, orca_path).len()
            && (#[trigger] orca_run(s, answers, message, orca_path)[j]).1 is Done
            ==> !orca_run(s, answers, message, orca_path)[j].0.started,
    decreases answers.len(),
{
    if answers.len() > 0 {
        let mv = orca_transition(s, answers[0], message, orca_path);
        let rest = orca_run(mv.0, answers.drop_first(), message, orca_path);
        let run = orca_run(s, answers, message, orca_path);
        assert(run == seq![mv] + rest);
        if s.step == OrcaStep::Kill {
            lemma_run_idle_stays_stopped(mv.0, answers.drop_first(), message, orca_path);
        } else {
            lemma_run_stop_ends_stopped(mv.0, answers.drop_first(), message, orca_path);
        }
        assert forall|j: int| 0 <= j < run.len() && (#[trigger] run[j]).1 is Done implies !run[j].0.started by {
            if j > 0 {
                assert(run[j] == rest[j - 1]);
            }
        }
    }
}

/// Stopping (or restarting) an Orca that this control started always asks for it to be
/// killed before it says `Done`, however the questions on the way are answered; and a stop
/// says `Done` only with Orca no longer counted as started.
pub proof fn lemma_orca_stop_kills(restarting: bool, answers: Seq<bool>, message: Seq<char>, orca_path: Seq<char>)
    ensures
        ({
            let (s0, r0) = orca_stop_move(true, restarting);
            let run = orca_run(s0, answers, message, orca_path);
            &&& r0 !is Done
            &&& forall|j: int| 0 <= j < run.len() && (#[trigger] run[j]).1 is Done
                ==> exists|i: int| 0 <= i < j && run[i].1 == OrcaRequestView::KillOrca
            &&& !restarting ==> forall|j: int| 0 <= j < run.len() && (#[trigger] run[j]).1 is Done
                ==> !run[j].0.started
        }),
{
    let (s0, r0) = orca_stop_move(true, restarting);
    lemma_run_kills_before_done(s0, answers, message, orca_path);
    if !restarting {
        lemma_run_stop_ends_stopped(s0, answers, message, orca_path);
    }
}

} // verus!
