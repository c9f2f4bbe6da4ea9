//! Configuration sections and the state kept between greeter runs.

use std::collections::HashMap;
use vstd::prelude::*;

verus! {

/// A `Vec<String>` made of the given literal words.
fn words(items: &[&str]) -> (res: Vec<String>)
    ensures
        res.deep_view() == items@.map_values(|s: &str| s@),
{
    let mut res: Vec<String> = Vec::new();
    let mut i: usize = 0;
    while i < items.len()
        invariant
            i <= items@.len(),
            res.deep_view() == items@.take(i as int).map_values(|s: &str| s@),
        decreases items@.len() - i,
    {
        let ghost before = res.deep_view();
        res.push(String::from_str(items[i]));
        assert(res.deep_view() =~= before.push(items@[i as int]@));
        assert(items@.take(i + 1).map_values(|s: &str| s@) =~= items@.take(i as int).map_values(
            |s: &str| s@,
        ).push(items@[i as int]@));
        i = i + 1;
    }
    assert(items@.take(i as int) =~= items@);
    res
}

/// Accessibility configuration.
#[derive(Debug, Clone)]
pub struct AccessibilityConfig {
    /// Start the Orca screen reader by default.
    pub start_orca: bool,
    /// Use systemd for Orca if available.
    pub prefer_systemd: bool,
    /// Path to the orca executable.
    pub orca_path: String,
    /// Additional Orca arguments.
    pub orca_args: Vec<String>,
    /// Enable audio (PipeWire).
    pub enable_audio: bool,
    /// AT-SPI environment setup.
    pub setup_atspi: bool,
}

impl Default for AccessibilityConfig {
    fn default() -> (res: Self)
        ensures
            res.start_orca,
            res.prefer_systemd,
            res.orca_path@ == "/usr/bin/orca"@,
            res.orca_args.deep_view() == seq!["--replace"@],
            res.enable_audio,
            res.setup_atspi,
    {
        AccessibilityConfig {
            start_orca: true,
            prefer_systemd: true,
            orca_path: String::from_str("/usr/bin/orca"),
            orca_args: words(&["--replace"]),
            enable_audio: true,
            setup_atspi: true,
        }
    }
}

impl AccessibilityConfig {
    /// Applies the command line's `--no-accessibility`: with it, neither Orca nor audio is
    /// started; without it, nothing changes.
    pub fn apply_cli_overrides(&mut self, no_accessibility: bool)
        ensures
            final(self).start_orca == (old(self).start_orca && !no_accessibility),
            final(self).enable_audio == (old(self).enable_audio && !no_accessibility),
            final(self).prefer_systemd == old(self).prefer_systemd,
            final(self).orca_path == old(self).orca_path,
            final(self).orca_args == old(self).orca_args,
            final(self).setup_atspi == old(self).setup_atspi,
    {
        if no_accessibility {
            self.start_orca = false;
            self.enable_audio = false;
        }
    }
}

/// Session discovery configuration.
#[derive(Debug, Clone)]
pub struct SessionsConfig {
    /// Additional session directories.
    pub extra_dirs: Vec<String>,
    /// X11 session wrapper command.
    pub x11_wrapper: Vec<String>,
    /// Default session name (empty for none).
    pub default_session: String,
    /// Show X11 sessions.
    pub show_x11: bool,
    /// Show Wayland sessions.
    pub show_wayland: bool,
}

impl Default for SessionsConfig {
    fn default() -> (res: Self)
        ensures
            res.extra_dirs@.len() == 0,
            res.x11_wrapper.deep_view() == seq!["startx"@],
            res.default_session@.len() == 0,
            res.show_x11,
            res.show_wayland,
    {
        SessionsConfig {
            extra_dirs: Vec::new(),
            x11_wrapper: words(&["startx"]),
            default_session: String::new(),
            show_x11: true,
            show_wayland: true,
        }
    }
}

/// Behavior configuration.
#[derive(Debug, Clone)]
pub struct BehaviorConfig {
    /// Remember the last user.
    pub remember_user: bool,
    /// Remember the last session.
    pub remember_session: bool,
    /// State file path.
    pub state_file: String,
    /// Initial focus field.
    pub initial_focus: String,
    /// Show a clock.
    pub show_clock: bool,
    /// Clock format.
    pub clock_format: String,
}

impl Default for BehaviorConfig {
    fn default() -> (res: Self)
        ensures
            res.remember_user,
            res.remember_session,
            res.state_file@ == "/var/cache/waygreet/state.toml"@,
            res.initial_focus@ == "username"@,
            res.show_clock,
            res.clock_format@ == "%H:%M"@,
    {
        BehaviorConfig {
            remember_user: true,
            remember_session: true,
            state_file: String::from_str("/var/cache/waygreet/state.toml"),
            initial_focus: String::from_str("username"),
            show_clock: true,
            clock_format: String::from_str("%H:%M"),
        }
    }
}

/// Power command configuration.
#[derive(Debug, Clone)]
pub struct CommandsConfig {
    /// Reboot command.
    pub reboot: Vec<String>,
    /// Shutdown command.
    pub shutdown: Vec<String>,
    /// Enable the power menu.
    pub enable_power_menu: bool,
}

impl Default for CommandsConfig {
    fn default() -> (res: Self)
        ensures
            res.reboot.deep_view() == seq!["systemctl"@, "reboot"@],
            res.shutdown.deep_view() == seq!["systemctl"@, "poweroff"@],
            res.enable_power_menu,
    {
        CommandsConfig {
            reboot: words(&["systemctl", "reboot"]),
            shutdown: words(&["systemctl", "poweroff"]),
            enable_power_menu: true,
        }
    }
}

/// Environment configuration.
#[derive(Debug, Clone)]
pub struct EnvironmentConfig {
    /// Additional environment variables for the started session.
    pub vars: HashMap<String, String>,
}

impl Default for EnvironmentConfig {
    fn default() -> (res: Self)
        ensures
            res.vars@ == Map::<String, String>::empty(),
    {
        EnvironmentConfig { vars: HashMap::new() }
    }
}

/// State kept between greeter runs.
#[derive(Debug, Clone)]
pub struct State {
    pub last_user: Option<String>,
    pub last_session: Option<String>,
}

impl Default for State {
    fn default() -> (res: Self)
        ensures
            res.last_user is None,
            res.last_session is None,
    {
        State { last_user: None, last_session: None }
    }
}

} // verus!
