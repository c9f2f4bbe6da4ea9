//! Audio startup (PipeWire, WirePlumber, pipewire-pulse, PulseAudio as a fallback), as a
//! state machine: it says what to ask or do next, and takes the answer.

use vstd::prelude::*;

verus! {

/// A systemd user unit that audio startup deals with.
#[derive(Debug, Clone, Copy, PartialEq, Eq, Structural)]
pub enum AudioUnit {
    PipewireSocket,
    PipewireService,
    WireplumberService,
    PipewirePulseService,
    PipewirePulseSocket,
}

impl AudioUnit {
    /// The unit's name.
    pub fn name(&self) -> (res: &'static str)
        ensures
            res@ == audio_unit_name(*self),
    {
        match self {
            AudioUnit::PipewireSocket => "pipewire.socket",
            AudioUnit::PipewireService => "pipewire.service",
            AudioUnit::WireplumberService => "wireplumber.service",
            AudioUnit::PipewirePulseService => "pipewire-pulse.service",
            AudioUnit::PipewirePulseSocket => "pipewire-pulse.socket",
        }
    }
}

/// The name of a unit.
pub open spec fn audio_unit_name(u: AudioUnit) -> Seq<char> {
    match u {
        AudioUnit::PipewireSocket => "pipewire.socket"@,
        AudioUnit::PipewireService => "pipewire.service"@,
        AudioUnit::WireplumberService => "wireplumber.service"@,
        AudioUnit::PipewirePulseService => "pipewire-pulse.service"@,
        AudioUnit::PipewirePulseSocket => "pipewire-pulse.socket"@,
    }
}

/// A program that audio startup runs when systemd is not used.
#[derive(Debug, Clone, Copy, PartialEq, Eq, Structural)]
pub enum AudioProgram {
    Pipewire,
    Wireplumber,
    PipewirePulse,
    PulseAudio,
}

/// The name of a program.
pub open spec fn audio_program_name(p: AudioProgram) -> Seq<char> {
    match p {
        AudioProgram::Pipewire => "pipewire"@,
        AudioProgram::Wireplumber => "wireplumber"@,
        AudioProgram::PipewirePulse => "pipewire-pulse"@,
        AudioProgram::PulseAudio => "pulseaudio"@,
    }
}

impl AudioProgram {
    /// The program's name (also its process name).
    pub fn name(&self) -> (res: &'static str)
        ensures
            res@ == audio_program_name(*self),
    {
        match self {
            AudioProgram::Pipewire => "pipewire",
            AudioProgram::Wireplumber => "wireplumber",
            AudioProgram::PipewirePulse => "pipewire-pulse",
            AudioProgram::PulseAudio => "pulseaudio",
        }
    }
}

/// What audio startup asks for next.
#[derive(Debug)]
pub enum AudioRequest {
    /// Is the systemd user session available and responsive?
    UserSessionAvailable,
    /// Does this unit exist?
    UnitAvailable(AudioUnit),
    /// Is this unit active?
    UnitActive(AudioUnit),
    /// Start this service (the reply tells success, and the error message if any).
    StartService(AudioUnit),
    /// Start this socket (the reply tells success).
    StartSocket(AudioUnit),
    /// Is a process of this name running?
    ProcessRunning(AudioProgram),
    /// Spawn this program in the background (the reply tells whether it was spawned).
    Spawn(AudioProgram),
    /// Run `pulseaudio --start` and wait for it.
    StartPulseAudio,
    /// Wait this many milliseconds.
    Sleep(u64),
    /// Startup is over, with this outcome.
    Done(Result<(), String>),
}

/// A request as plain values.
pub enum AudioRequestView {
    UserSessionAvailable,
    UnitAvailable(AudioUnit),
    UnitActive(AudioUnit),
    StartService(AudioUnit),
    StartSocket(AudioUnit),
    ProcessRunning(AudioProgram),
    Spawn(AudioProgram),
    StartPulseAudio,
    Sleep(u64),
    Done(Result<(), Seq<char>>),
}

impl View for AudioRequest {
    type V = AudioRequestView;

    open spec fn view(&self) -> AudioRequestView {
        match self {
            AudioRequest::UserSessionAvailable => AudioRequestView::UserSessionAvailable,
            AudioRequest::UnitAvailable(u) => AudioRequestView::UnitAvailable(*u),
            AudioRequest::UnitActive(u) => AudioRequestView::UnitActive(*u),
            AudioRequest::StartService(u) => AudioRequestView::StartService(*u),
            AudioRequest::StartSocket(u) => AudioRequestView::StartSocket(*u),
            AudioRequest::ProcessRunning(p) => AudioRequestView::ProcessRunning(*p),
            AudioRequest::Spawn(p) => AudioRequestView::Spawn(*p),
            AudioRequest::StartPulseAudio => AudioRequestView::StartPulseAudio,
            AudioRequest::Sleep(ms) => AudioRequestView::Sleep(*ms),
            AudioRequest::Done(Ok(())) => AudioRequestView::Done(Ok(())),
            AudioRequest::Done(Err(m)) => AudioRequestView::Done(Err(m@)),
        }
    }
}

/// Where audio startup stands.
#[derive(Debug, Clone, Copy, PartialEq, Eq, Structural)]
pub enum AudioStep {
    AskSession,
    SysSocketAvailable,
    SysServiceAvailable,
    SysActive,
    SysRecheckSocket,
    SysStartSocket,
    SysStartService,
    SysWireplumberAvailable,
    SysWireplumberActive,
    SysWireplumberStart,
    SysPulseActive,
    SysPulseServiceAvailable,
    SysPulseServiceStart,
    SysPulseSocketAvailable,
    SysPulseSocketStart,
    SysWait,
    SysVerify,
    DirPipewireRunning,
    DirPipewireSpawn,
    DirPipewireWait,
    DirWireplumberRunning,
    DirWireplumberSpawn,
    DirWireplumberWait,
    DirPulseRunning,
    DirPulseSpawn,
    DirWait,
    FallbackRunning,
    FallbackStart,
    Finished,
}

/// The next step and request, given the step's request was answered with `ok` (and, for a
/// failed start, the error `message`).
///
/// With a systemd user session: PipeWire must exist as a socket or service (else audio is
/// started directly); unless it is active, its socket is started if it exists, and the
/// service when the socket is missing or fails to start; a failure to start the service
/// ends startup with its error. WirePlumber is started when it exists and is not active.
/// pipewire-pulse, unless active, is started as a service if one exists, else as a socket
/// if one exists. Then startup waits 500 ms, checks PipeWire once more, and succeeds.
/// Without one: each of pipewire, wireplumber and pipewire-pulse is spawned unless a process
/// of that name runs (300 ms pauses after pipewire and wireplumber are dealt with by
/// spawning); if pipewire cannot be spawned, PulseAudio is started instead (unless it runs)
/// and startup succeeds whatever came of it. Direct startup ends with a 500 ms wait.
pub open spec fn audio_transition(step: AudioStep, ok: bool, message: Seq<char>) -> (AudioStep, AudioRequestView) {
    match step {
        AudioStep::AskSession => if ok {
            (AudioStep::SysSocketAvailable, AudioRequestView::UnitAvailable(AudioUnit::PipewireSocket))
        } else {
            (AudioStep::DirPipewireRunning, AudioRequestView::ProcessRunning(AudioProgram::Pipewire))
        },
        AudioStep::SysSocketAvailable => if ok {
            (AudioStep::SysActive, AudioRequestView::UnitActive(AudioUnit::PipewireService))
        } else {
            (AudioStep::SysServiceAvailable, AudioRequestView::UnitAvailable(AudioUnit::PipewireService))
        },
        AudioStep::SysServiceAvailable => if ok {
            (AudioStep::SysActive, AudioRequestView::UnitActive(AudioUnit::PipewireService))
        } else {
            (AudioStep::DirPipewireRunning, AudioRequestView::ProcessRunning(AudioProgram::Pipewire))
        },
        AudioStep::SysActive => if ok {
            (AudioStep::SysWireplumberAvailable, AudioRequestView::UnitAvailable(AudioUnit::WireplumberService))
        } else {
            (AudioStep::SysRecheckSocket, AudioRequestView::UnitAvailable(AudioUnit::PipewireSocket))
        },
        AudioStep::SysRecheckSocket => if ok {
            (AudioStep::SysStartSocket, AudioRequestView::StartSocket(AudioUnit::PipewireSocket))
        } else {
            (AudioStep::SysStartService, AudioRequestView::StartService(AudioUnit::PipewireService))
        },
        AudioStep::SysStartSocket => if ok {
            (AudioStep::SysWireplumberAvailable, AudioRequestView::UnitAvailable(AudioUnit::WireplumberService))
        } else {
            (AudioStep::SysStartService, AudioRequestView::StartService(AudioUnit::PipewireService))
        },
        AudioStep::SysStartService => if ok {
            (AudioStep::SysWireplumberAvailable, AudioRequestView::UnitAvailable(AudioUnit::WireplumberService))
        } else {
            (AudioStep::Finished, AudioRequestView::Done(Err(message)))
        },
        AudioStep::SysWireplumberAvailable => if ok {
            (AudioStep::SysWireplumberActive, AudioRequestView::UnitActive(AudioUnit::WireplumberService))
        } else {
            (AudioStep::SysPulseActive, AudioRequestView::UnitActive(AudioUnit::PipewirePulseService))
        },
        AudioStep::SysWireplumberActive => if ok {
            (AudioStep::SysPulseActive, AudioRequestView::UnitActive(AudioUnit::PipewirePulseService))
        } else {
            (AudioStep::SysWireplumberStart, AudioRequestView::StartService(AudioUnit::WireplumberService))
        },
        AudioStep::SysWireplumberStart => (AudioStep::SysPulseActive, AudioRequestView::UnitActive(AudioUnit::PipewirePulseService)),
        AudioStep::SysPulseActive => if ok {
            (AudioStep::SysWait, AudioRequestView::Sleep(500))
        } else {
            (AudioStep::SysPulseServiceAvailable, AudioRequestView::UnitAvailable(AudioUnit::PipewirePulseService))
        },
        AudioStep::SysPulseServiceAvailable => if ok {
            (AudioStep::SysPulseServiceStart, AudioRequestView::StartService(AudioUnit::PipewirePulseService))
        } else {
            (AudioStep::SysPulseSocketAvailable, AudioRequestView::UnitAvailable(AudioUnit::PipewirePulseSocket))
        },
        AudioStep::SysPulseServiceStart => (AudioStep::SysWait, AudioRequestView::Sleep(500)),
        AudioStep::SysPulseSocketAvailable => if ok {
            (AudioStep::SysPulseSocketStart, AudioRequestView::StartSocket(AudioUnit::PipewirePulseSocket))
        } else {
            (AudioStep::SysWait, AudioRequestView::Sleep(500))
        },
        AudioStep::SysPulseSocketStart => (AudioStep::SysWait, AudioRequestView::Sleep(500)),
        AudioStep::SysWait => (AudioStep::SysVerify, AudioRequestView::UnitActive(AudioUnit::PipewireService)),
        AudioStep::SysVerify => (AudioStep::Finished, AudioRequestView::Done(Ok(()))),
        AudioStep::DirPipewireRunning => if ok {
            (AudioStep::DirWireplumberRunning, AudioRequestView::ProcessRunning(AudioProgram::Wireplumber))
        } else {
            (AudioStep::DirPipewireSpawn, AudioRequestView::Spawn(AudioProgram::Pipewire))
        },
        AudioStep::DirPipewireSpawn => if ok {
            (AudioStep::DirPipewireWait, AudioRequestView::Sleep(300))
        } else {
            (AudioStep::FallbackRunning, AudioRequestView::ProcessRunning(AudioProgram::PulseAudio))
        },
        AudioStep::DirPipewireWait => (AudioStep::DirWireplumberRunning, AudioRequestView::ProcessRunning(AudioProgram::Wireplumber)),
        AudioStep::DirWireplumberRunning => if ok {
            (AudioStep::DirPulseRunning, AudioRequestView::ProcessRunning(AudioProgram::PipewirePulse))
        } else {
            (AudioStep::DirWireplumberSpawn, AudioRequestView::Spawn(AudioProgram::Wireplumber))
        },
        AudioStep::DirWireplumberSpawn => (AudioStep::DirWireplumberWait, AudioRequestView::Sleep(300)),
        AudioStep::DirWireplumberWait => (AudioStep::DirPulseRunning, AudioRequestView::ProcessRunning(AudioProgram::PipewirePulse)),
        AudioStep::DirPulseRunning => if ok {
            (AudioStep::DirWait, AudioRequestView::Sleep(500))
        } else {
            (AudioStep::DirPulseSpawn, AudioRequestView::Spawn(AudioProgram::PipewirePulse))
        },
        AudioStep::DirPulseSpawn => (AudioStep::DirWait, AudioRequestView::Sleep(500)),
        AudioStep::DirWait => (AudioStep::Finished, AudioRequestView::Done(Ok(()))),
        AudioStep::FallbackRunning => if ok {
            (AudioStep::Finished, AudioRequestView::Done(Ok(())))
        } else {
            (AudioStep::FallbackStart, AudioRequestView::StartPulseAudio)
        },
        AudioStep::FallbackStart => (AudioStep::Finished, AudioRequestView::Done(Ok(()))),
        AudioStep::Finished => (AudioStep::Finished, AudioRequestView::Done(Ok(()))),
    }
}

/// Audio startup in progress.
#[derive(Debug, Clone)]
pub struct AudioStartup {
    step: AudioStep,
}

impl AudioStartup {
    /// Where startup stands.
    pub closed spec fn at(&self) -> AudioStep {
        self.step
    }

    /// Starts audio startup: the first question is whether the systemd user session is
    /// available.
    pub fn start() -> (res: (Self, AudioRequest))
        ensures
            res.0.at() == AudioStep::AskSession,
            res.1@ == AudioRequestView::UserSessionAvailable,
    {
        (AudioStartup { step: AudioStep::AskSession }, AudioRequest::UserSessionAvailable)
    }

    /// Takes the answer to the last request and says what comes next.
    pub fn next(&mut self, ok: bool, message: String) -> (req: AudioRequest)
        ensures
            (final(self).at(), req@) == audio_transition(old(self).at(), ok, message@),
    {
        let (step, req) = match self.step {
            AudioStep::AskSession => if ok {
                (AudioStep::SysSocketAvailable, AudioRequest::UnitAvailable(AudioUnit::PipewireSocket))
            } else {
                (AudioStep::DirPipewireRunning, AudioRequest::ProcessRunning(AudioProgram::Pipewire))
            },
            AudioStep::SysSocketAvailable => if ok {
                (AudioStep::SysActive, AudioRequest::UnitActive(AudioUnit::PipewireService))
            } else {
                (AudioStep::SysServiceAvailable, AudioRequest::UnitAvailable(AudioUnit::PipewireService))
            },
            AudioStep::SysServiceAvailable => if ok {
                (AudioStep::SysActive, AudioRequest::UnitActive(AudioUnit::PipewireService))
            } else {
                (AudioStep::DirPipewireRunning, AudioRequest::ProcessRunning(AudioProgram::Pipewire))
            },
            AudioStep::SysActive => if ok {
                (AudioStep::SysWireplumberAvailable, AudioRequest::UnitAvailable(AudioUnit::WireplumberService))
            } else {
                (AudioStep::SysRecheckSocket, AudioRequest::UnitAvailable(AudioUnit::PipewireSocket))
            },
            AudioStep::SysRecheckSocket => if ok {
                (AudioStep::SysStartSocket, AudioRequest::StartSocket(AudioUnit::PipewireSocket))
            } else {
                (AudioStep::SysStartService, AudioRequest::StartService(AudioUnit::PipewireService))
            },
            AudioStep::SysStartSocket => if ok {
                (AudioStep::SysWireplumberAvailable, AudioRequest::UnitAvailable(AudioUnit::WireplumberService))
            } else {
                (AudioStep::SysStartService, AudioRequest::StartService(AudioUnit::PipewireService))
            },
            AudioStep::SysStartService => if ok {
                (AudioStep::SysWireplumberAvailable, AudioRequest::UnitAvailable(AudioUnit::WireplumberService))
            } else {
                (AudioStep::Finished, AudioRequest::Done(Err(message)))
            },
            AudioStep::SysWireplumberAvailable => if ok {
                (AudioStep::SysWireplumberActive, AudioRequest::UnitActive(AudioUnit::WireplumberService))
            } else {
                (AudioStep::SysPulseActive, AudioRequest::UnitActive(AudioUnit::PipewirePulseService))
            },
            AudioStep::SysWireplumberActive => if ok {
                (AudioStep::SysPulseActive, AudioRequest::UnitActive(AudioUnit::PipewirePulseService))
            } else {
                (AudioStep::SysWireplumberStart, AudioRequest::StartService(AudioUnit::WireplumberService))
            },
            AudioStep::SysWireplumberStart => (AudioStep::SysPulseActive, AudioRequest::UnitActive(AudioUnit::PipewirePulseService)),
            AudioStep::SysPulseActive => if ok {
                (AudioStep::SysWait, AudioRequest::Sleep(500))
            } else {
                (AudioStep::SysPulseServiceAvailable, AudioRequest::UnitAvailable(AudioUnit::PipewirePulseService))
            },
            AudioStep::SysPulseServiceAvailable => if ok {
                (AudioStep::SysPulseServiceStart, AudioRequest::StartService(AudioUnit::PipewirePulseService))
            } else {
                (AudioStep::SysPulseSocketAvailable, AudioRequest::UnitAvailable(AudioUnit::PipewirePulseSocket))
            },
            AudioStep::SysPulseServiceStart => (AudioStep::SysWait, AudioRequest::Sleep(500)),
            AudioStep::SysPulseSocketAvailable => if ok {
                (AudioStep::SysPulseSocketStart, AudioRequest::StartSocket(AudioUnit::PipewirePulseSocket))
            } else {
                (AudioStep::SysWait, AudioRequest::Sleep(500))
            },
            AudioStep::SysPulseSocketStart => (AudioStep::SysWait, AudioRequest::Sleep(500)),
            AudioStep::SysWait => (AudioStep::SysVerify, AudioRequest::UnitActive(AudioUnit::PipewireService)),
            AudioStep::SysVerify => (AudioStep::Finished, AudioRequest::Done(Ok(()))),
            AudioStep::DirPipewireRunning => if ok {
                (AudioStep::DirWireplumberRunning, AudioRequest::ProcessRunning(AudioProgram::Wireplumber))
            } else {
                (AudioStep::DirPipewireSpawn, AudioRequest::Spawn(AudioProgram::Pipewire))
            },
            AudioStep::DirPipewireSpawn => if ok {
                (AudioStep::DirPipewireWait, AudioRequest::Sleep(300))
            } else {
                (AudioStep::FallbackRunning, AudioRequest::ProcessRunning(AudioProgram::PulseAudio))
            },
            AudioStep::DirPipewireWait => (AudioStep::DirWireplumberRunning, AudioRequest::ProcessRunning(AudioProgram::Wireplumber)),
            AudioStep::DirWireplumberRunning => if ok {
                (AudioStep::DirPulseRunning, AudioRequest::ProcessRunning(AudioProgram::PipewirePulse))
            } else {
                (AudioStep::DirWireplumberSpawn, AudioRequest::Spawn(AudioProgram::Wireplumber))
            },
            AudioStep::DirWireplumberSpawn => (AudioStep::DirWireplumberWait, AudioRequest::Sleep(300)),
            AudioStep::DirWireplumberWait => (AudioStep::DirPulseRunning, AudioRequest::ProcessRunning(AudioProgram::PipewirePulse)),
            AudioStep::DirPulseRunning => if ok {
                (AudioStep::DirWait, AudioRequest::Sleep(500))
            } else {
                (AudioStep::DirPulseSpawn, AudioRequest::Spawn(AudioProgram::PipewirePulse))
            },
            AudioStep::DirPulseSpawn => (AudioStep::DirWait, AudioRequest::Sleep(500)),
            AudioStep::DirWait => (AudioStep::Finished, AudioRequest::Done(Ok(()))),
            AudioStep::FallbackRunning => if ok {
                (AudioStep::Finished, AudioRequest::Done(Ok(())))
            } else {
                (AudioStep::FallbackStart, AudioRequest::StartPulseAudio)
            },
            AudioStep::FallbackStart => (AudioStep::Finished, AudioRequest::Done(Ok(()))),
            AudioStep::Finished => (AudioStep::Finished, AudioRequest::Done(Ok(()))),
        };
        self.step = step;
        req
    }
}

/// How many more requests a step can lead to, at most.
pub open spec fn audio_rank(step: AudioStep) -> nat {
    match step {
        AudioStep::AskSession => 29,
        AudioStep::SysSocketAvailable => 28,
        AudioStep::SysServiceAvailable => 27,
        AudioStep::SysActive => 26,
        AudioStep::SysRecheckSocket => 25,
        AudioStep::SysStartSocket => 24,
        AudioStep::SysStartService => 23,
        AudioStep::SysWireplumberAvailable => 22,
        AudioStep::SysWireplumberActive => 21,
        AudioStep::SysWireplumberStart => 20,
        AudioStep::SysPulseActive => 19,
        AudioStep::SysPulseServiceAvailable => 18,
        AudioStep::SysPulseServiceStart => 17,
        AudioStep::SysPulseSocketAvailable => 16,
        AudioStep::SysPulseSocketStart => 15,
        AudioStep::SysWait => 14,
        AudioStep::SysVerify => 13,
        AudioStep::DirPipewireRunning => 12,
        AudioStep::DirPipewireSpawn => 11,
        AudioStep::DirPipewireWait => 10,
        AudioStep::DirWireplumberRunning => 9,
        AudioStep::DirWireplumberSpawn => 8,
        AudioStep::DirWireplumberWait => 7,
        AudioStep::DirPulseRunning => 6,
        AudioStep::DirPulseSpawn => 5,
        AudioStep::DirWait => 4,
        AudioStep::FallbackRunning => 3,
        AudioStep::FallbackStart => 2,
        AudioStep::Finished => 0,
    }
}

/// Audio startup always ends: every answer leads to a step closer to the end, and the end
/// is reached exactly when `Done` is asked for.
pub proof fn lemma_audio_terminates(step: AudioStep, ok: bool, message: Seq<char>)
    ensures
        step != AudioStep::Finished ==> audio_rank(audio_transition(step, ok, message).0) < audio_rank(step),
        (audio_transition(step, ok, message).0 == AudioStep::Finished) <==> (audio_transition(step, ok, message).1 is Done),
{
}

/// WirePlumber is started whenever it is there and not running: a question whether it
/// exists, answered yes, is followed by the question whether it is active; that question,
/// answered no, is followed by the request to start it, whatever step asked it.
pub proof fn lemma_audio_starts_wireplumber(prev: AudioStep, ok: bool, m1: Seq<char>, m2: Seq<char>)
    ensures
        ({
            let (s1, r1) = audio_transition(prev, ok, m1);
            &&& r1 == AudioRequestView::UnitAvailable(AudioUnit::WireplumberService)
                ==> audio_transition(s1, true, m2).1 == AudioRequestView::UnitActive(AudioUnit::WireplumberService)
            &&& r1 == AudioRequestView::UnitActive(AudioUnit::WireplumberService)
                ==> audio_transition(s1, false, m2).1 == AudioRequestView::StartService(AudioUnit::WireplumberService)
        }),
{
}

/// Audio startup fails only when the PipeWire service could not be started through
/// systemd, and then with that error; starting it directly never fails.
pub proof fn lemma_audio_failure(step: AudioStep, ok: bool, message: Seq<char>)
    ensures
        audio_transition(step, ok, message).1 matches AudioRequestView::Done(Err(m))
            ==> step == AudioStep::SysStartService && !ok && m == message,
{
}

} // verus!
