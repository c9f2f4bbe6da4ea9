use waygreet::audio::{AudioProgram, AudioRequest, AudioStartup, AudioUnit};
use waygreet::config::AccessibilityConfig;
use waygreet::orca::{orca_command, OrcaControl, OrcaRequest};
use waygreet::systemd::{
    service_status_active, systemctl_args, unit_command_result, user_session_responds, UnitCommand, UnitRun,
};

/// Runs audio startup against fixed answers, collecting what it asked for.
fn run_audio(answers: &[bool]) -> (Vec<String>, Result<(), String>) {
    let (mut startup, mut req) = AudioStartup::start();
    let mut asked = Vec::new();
    let mut i = 0;
    loop {
        if let AudioRequest::Done(r) = req {
            return (asked, r);
        }
        asked.push(describe_audio(&req));
        let ok = answers.get(i).copied().unwrap_or(false);
        i += 1;
        let message = if ok { String::new() } else { "Failed to start pipewire.service: boom".to_string() };
        req = startup.next(ok, message);
    }
}

fn describe_audio(req: &AudioRequest) -> String {
    match req {
        AudioRequest::UserSessionAvailable => "session?".to_string(),
        AudioRequest::UnitAvailable(u) => format!("available {}", u.name()),
        AudioRequest::UnitActive(u) => format!("active {}", u.name()),
        AudioRequest::StartService(u) => format!("start {}", u.name()),
        AudioRequest::StartSocket(u) => format!("start socket {}", u.name()),
        AudioRequest::ProcessRunning(p) => format!("running {}", p.name()),
        AudioRequest::Spawn(p) => format!("spawn {}", p.name()),
        AudioRequest::StartPulseAudio => "pulseaudio --start".to_string(),
        AudioRequest::Sleep(ms) => format!("sleep {}", ms),
        AudioRequest::Done(_) => "done".to_string(),
    }
}

fn describe_orca(req: &OrcaRequest) -> String {
    match req {
        OrcaRequest::OrcaRunning => "orca running?".to_string(),
        OrcaRequest::UserSessionAvailable => "session?".to_string(),
        OrcaRequest::SystemctlAvailable => "systemctl?".to_string(),
        OrcaRequest::UnitAvailable(u) => format!("available {}", u),
        OrcaRequest::UnitActive(u) => format!("active {}", u),
        OrcaRequest::StartUnit(u) => format!("start {}", u),
        OrcaRequest::StopUnit(u) => format!("stop {}", u),
        OrcaRequest::SpawnBusLauncher => "spawn launcher".to_string(),
        OrcaRequest::SpawnOrca => "spawn orca".to_string(),
        OrcaRequest::KillOrca => "kill orca".to_string(),
        OrcaRequest::Sleep(ms) => format!("sleep {}", ms),
        OrcaRequest::Done(Ok(())) => "done".to_string(),
        OrcaRequest::Done(Err(m)) => format!("failed: {}", m),
    }
}

/// Drives Orca control from a first request against fixed answers.
fn run_orca(control: &mut OrcaControl, first: OrcaRequest, answers: &[bool]) -> Vec<String> {
    let mut req = first;
    let mut seen = Vec::new();
    let mut i = 0;
    loop {
        seen.push(describe_orca(&req));
        if let OrcaRequest::Done(_) = req {
            return seen;
        }
        let ok = answers.get(i).copied().unwrap_or(false);
        i += 1;
        req = control.next(ok, "Failed to start orca.service: masked".to_string());
    }
}

#[test]
fn unit_and_program_names() {
    assert_eq!(AudioUnit::PipewireSocket.name(), "pipewire.socket");
    assert_eq!(AudioUnit::PipewirePulseService.name(), "pipewire-pulse.service");
    assert_eq!(AudioProgram::PulseAudio.name(), "pulseaudio");
    assert_eq!(AudioProgram::PipewirePulse.name(), "pipewire-pulse");
}

#[test]
fn audio_through_systemd_when_everything_runs() {
    // session, socket exists, pipewire active, wireplumber exists and active, pulse active
    let (asked, result) = run_audio(&[true, true, true, true, true, true]);
    assert_eq!(
        asked,
        vec![
            "session?",
            "available pipewire.socket",
            "active pipewire.service",
            "available wireplumber.service",
            "active wireplumber.service",
            "active pipewire-pulse.service",
            "sleep 500",
            "active pipewire.service",
        ]
    );
    assert_eq!(result, Ok(()));
}

#[test]
fn audio_through_systemd_starting_services() {
    // session, socket exists, not active, socket exists, socket start fails, service starts,
    // no wireplumber, pulse not active, pulse service exists, started.
    let (asked, result) = run_audio(&[true, true, false, true, false, true, false, false, true, true]);
    assert_eq!(
        asked,
        vec![
            "session?",
            "available pipewire.socket",
            "active pipewire.service",
            "available pipewire.socket",
            "start socket pipewire.socket",
            "start pipewire.service",
            "available wireplumber.service",
            "active pipewire-pulse.service",
            "available pipewire-pulse.service",
            "start pipewire-pulse.service",
            "sleep 500",
            "active pipewire.service",
        ]
    );
    assert_eq!(result, Ok(()));
}

#[test]
fn audio_fails_when_pipewire_service_cannot_start() {
    // session, no socket, service exists, not active, no socket now, service start fails
    let (asked, result) = run_audio(&[true, false, true, false, false, false]);
    assert_eq!(asked.last().unwrap(), "start pipewire.service");
    assert_eq!(result, Err("Failed to start pipewire.service: boom".to_string()));
}

#[test]
fn audio_directly_without_systemd() {
    // no session, pipewire not running, spawned, wireplumber not running, spawn fails,
    // pulse running
    let (asked, result) = run_audio(&[false, false, true, false, false, false, true, true]);
    assert_eq!(
        asked,
        vec![
            "session?",
            "running pipewire",
            "spawn pipewire",
            "sleep 300",
            "running wireplumber",
            "spawn wireplumber",
            "sleep 300",
            "running pipewire-pulse",
            "sleep 500",
        ]
    );
    assert_eq!(result, Ok(()));
}

#[test]
fn audio_without_pipewire_units_goes_direct() {
    let (asked, _) = run_audio(&[true, false, false, true]);
    assert_eq!(asked[..4], ["session?", "available pipewire.socket", "available pipewire.service", "running pipewire"]);
}

#[test]
fn audio_falls_back_to_pulseaudio() {
    let (asked, result) = run_audio(&[false, false, false, false, false]);
    assert_eq!(asked, vec!["session?", "running pipewire", "spawn pipewire", "running pulseaudio", "pulseaudio --start"]);
    assert_eq!(result, Ok(()));
    let (asked, result) = run_audio(&[false, false, false, true]);
    assert_eq!(asked.last().unwrap(), "running pulseaudio");
    assert_eq!(result, Ok(()));
}

#[test]
fn orca_is_spawned_with_accessibility_on() {
    let config = AccessibilityConfig::default();
    let cmd = orca_command(&config);
    assert_eq!(cmd.program, "/usr/bin/orca");
    assert_eq!(cmd.args, vec!["--replace"]);
    assert_eq!(
        cmd.env,
        vec![
            ("GTK_MODULES".to_string(), "gail:atk-bridge".to_string()),
            ("GNOME_ACCESSIBILITY".to_string(), "1".to_string()),
        ]
    );
}

#[test]
fn orca_start_brings_up_the_bus_first() {
    let mut control = OrcaControl::new(&AccessibilityConfig::default());
    assert!(!control.is_started());
    let first = control.start();
    // not running, session ok, bus unit exists, not active, (start), (launcher), (sleep),
    // spawned, (sleep), running
    let seen = run_orca(&mut control, first, &[false, true, true, false, true, true, true, true, true, true]);
    assert_eq!(
        seen,
        vec![
            "orca running?",
            "session?",
            "available at-spi-dbus-bus.service",
            "active at-spi-dbus-bus.service",
            "start at-spi-dbus-bus.service",
            "spawn launcher",
            "sleep 200",
            "spawn orca",
            "sleep 1500",
            "orca running?",
            "done",
        ]
    );
    assert!(control.is_started());
}

#[test]
fn orca_already_running_is_left_alone() {
    let mut control = OrcaControl::new(&AccessibilityConfig::default());
    let first = control.start();
    assert_eq!(run_orca(&mut control, first, &[true]), vec!["orca running?", "done"]);
    assert!(!control.is_started());
}

#[test]
fn orca_spawn_failure_is_an_error() {
    let mut config = AccessibilityConfig::default();
    config.orca_path = "/opt/orca".to_string();
    let mut control = OrcaControl::new(&config);
    let first = control.start();
    let seen = run_orca(&mut control, first, &[false, false, true, true, false]);
    assert_eq!(seen.last().unwrap(), "failed: Failed to spawn /opt/orca");
    assert!(!control.is_started());
}

#[test]
fn orca_stop_and_restart() {
    let mut control = OrcaControl::new(&AccessibilityConfig::default());
    let first = control.stop();
    assert_eq!(run_orca(&mut control, first, &[]), vec!["done"]);
    let first = control.start();
    run_orca(&mut control, first, &[false, false, true, true, true, true, true]);
    assert!(control.is_started());
    let first = control.stop();
    let seen = run_orca(&mut control, first, &[true, true, true, true]);
    assert_eq!(seen, vec!["systemctl?", "active orca.service", "stop orca.service", "kill orca", "done"]);
    assert!(!control.is_started());
    let first = control.restart();
    let seen = run_orca(&mut control, first, &[true, true]);
    assert_eq!(seen, vec!["sleep 500", "orca running?", "done"]);
}

#[test]
fn orca_through_systemd() {
    let mut control = OrcaControl::new(&AccessibilityConfig::default());
    let first = control.start_via_systemd();
    let seen = run_orca(&mut control, first, &[true, true, true, true]);
    assert_eq!(seen, vec!["available orca.service", "start orca.service", "sleep 1000", "active orca.service", "done"]);
    let first = control.start_via_systemd();
    assert_eq!(run_orca(&mut control, first, &[false]), vec!["available orca.service", "failed: orca.service not found"]);
    let first = control.start_via_systemd();
    assert_eq!(
        run_orca(&mut control, first, &[true, false]).last().unwrap(),
        "failed: Failed to start orca.service: masked"
    );
    let first = control.start_via_systemd();
    assert_eq!(
        run_orca(&mut control, first, &[true, true, true, false]).last().unwrap(),
        "failed: Orca service did not start properly"
    );
}

#[test]
fn systemctl_output() {
    assert!(user_session_responds("running\n"));
    assert!(user_session_responds("degraded\n"));
    assert!(!user_session_responds("offline\n"));
    assert!(!user_session_responds("  \n"));
    assert!(service_status_active("active\n"));
    assert!(!service_status_active("inactive\n"));
    assert!(!service_status_active("activating\n"));
}

#[test]
fn systemctl_arguments() {
    assert_eq!(systemctl_args(UnitCommand::Start, "pipewire.service"), vec!["--user", "start", "pipewire.service"]);
    assert_eq!(systemctl_args(UnitCommand::StartSocket, "pipewire.socket"), vec!["--user", "start", "pipewire.socket"]);
    assert_eq!(systemctl_args(UnitCommand::Stop, "orca.service"), vec!["--user", "stop", "orca.service"]);
}

#[test]
fn unit_command_outcomes() {
    let ok = UnitRun::Exited { success: true, stderr: String::new() };
    assert_eq!(unit_command_result(UnitCommand::Start, "a.service", &ok), Ok(()));
    let failed = UnitRun::Exited { success: false, stderr: "Unit a.service not found.\n".to_string() };
    assert_eq!(
        unit_command_result(UnitCommand::Start, "a.service", &failed),
        Err("Failed to start a.service: Unit a.service not found.".to_string())
    );
    assert_eq!(
        unit_command_result(UnitCommand::Stop, "a.service", &failed),
        Err("Failed to stop a.service: Unit a.service not found.".to_string())
    );
    let already = UnitRun::Exited { success: false, stderr: "socket already running".to_string() };
    assert_eq!(unit_command_result(UnitCommand::StartSocket, "p.socket", &already), Ok(()));
    assert_eq!(
        unit_command_result(UnitCommand::Start, "p.service", &already),
        Err("Failed to start p.service: socket already running".to_string())
    );
    assert_eq!(
        unit_command_result(UnitCommand::Start, "a.service", &UnitRun::NotRun("No such file".to_string())),
        Err("Failed to run systemctl: No such file".to_string())
    );
    assert_eq!(
        unit_command_result(UnitCommand::StartSocket, "p.socket", &UnitRun::TimedOut),
        Err("Timed out starting p.socket".to_string())
    );
    assert_eq!(
        unit_command_result(UnitCommand::Stop, "o.service", &UnitRun::TimedOut),
        Err("Timed out stopping o.service".to_string())
    );
}
