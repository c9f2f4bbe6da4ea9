//! Power menu: reboot and shutdown, each behind a confirmation.

use vstd::prelude::*;

use crate::config::CommandsConfig;
use crate::text::clone_strings;

verus! {

/// Power action type.
#[derive(Debug, Clone, Copy, PartialEq, Eq, Structural)]
pub enum PowerAction {
    Reboot,
    Shutdown,
}

/// Power menu input messages.
#[derive(Debug, Clone, Copy, PartialEq, Eq, Structural)]
pub enum PowerMenuInput {
    /// Reboot the system.
    Reboot,
    /// Shut the system down.
    Shutdown,
    /// Ask for confirmation of an action.
    ShowConfirmation(PowerAction),
    /// Confirm the pending action.
    ConfirmAction,
    /// Cancel the pending action.
    CancelAction,
}

/// Power menu output messages.
#[derive(Debug, Clone)]
pub enum PowerMenuOutput {
    /// The action's command ran successfully.
    ActionCompleted,
    /// The action failed, with a message.
    ActionFailed(String),
}

/// What handling an input asks for besides the state change.
#[derive(Debug, Clone)]
pub enum PowerEffect {
    /// Nothing more.
    Nothing,
    /// Send this input to the menu itself.
    Input(PowerMenuInput),
    /// Report this to the parent.
    Output(PowerMenuOutput),
    /// Run this (non-empty) command, then report its outcome.
    Run(Vec<String>),
}

/// Power menu state.
#[derive(Debug, Clone)]
pub struct PowerMenu {
    config: CommandsConfig,
    pending_action: Option<PowerAction>,
    enabled: bool,
}

/// The message of a failed action whose command is empty.
pub open spec fn empty_command_message() -> Seq<char> {
    "Empty command"@
}

impl PowerMenu {
    /// The action awaiting confirmation, if any.
    pub closed spec fn pending(&self) -> Option<PowerAction> {
        self.pending_action
    }

    /// Whether the menu is shown.
    pub closed spec fn is_enabled(&self) -> bool {
        self.enabled
    }

    /// The command that runs an action.
    pub closed spec fn command_of(&self, a: PowerAction) -> Seq<Seq<char>> {
        match a {
            PowerAction::Reboot => self.config.reboot.deep_view(),
            PowerAction::Shutdown => self.config.shutdown.deep_view(),
        }
    }

    /// A menu with nothing pending, shown when the configuration enables it.
    pub fn new(config: CommandsConfig) -> (res: Self)
        ensures
            res.pending() is None,
            res.is_enabled() == config.enable_power_menu,
            res.command_of(PowerAction::Reboot) == config.reboot.deep_view(),
            res.command_of(PowerAction::Shutdown) == config.shutdown.deep_view(),
    {
        let enabled = config.enable_power_menu;
        PowerMenu { config, pending_action: None, enabled }
    }

    /// Handles one input.
    pub fn update(&mut self, message: PowerMenuInput) -> (effect: PowerEffect)
        ensures
            final(self).is_enabled() == old(self).is_enabled(),
            forall|a: PowerAction| final(self).command_of(a) == old(self).command_of(a),
            match message {
                PowerMenuInput::Reboot => final(self).pending() == old(self).pending()
                    && effect matches PowerEffect::Input(PowerMenuInput::ShowConfirmation(PowerAction::Reboot)),
                PowerMenuInput::Shutdown => final(self).pending() == old(self).pending()
                    && effect matches PowerEffect::Input(PowerMenuInput::ShowConfirmation(PowerAction::Shutdown)),
                PowerMenuInput::ShowConfirmation(a) => final(self).pending() == Some(a)
                    && effect is Nothing,
                PowerMenuInput::ConfirmAction => final(self).pending() is None && match old(self).pending() {
                    None => effect is Nothing,
                    Some(a) => if old(self).command_of(a).len() == 0 {
                        effect matches PowerEffect::Output(PowerMenuOutput::ActionFailed(m)) && m@ == empty_command_message()
                    } else {
                        effect matches PowerEffect::Run(cmd) && cmd.deep_view() == old(self).command_of(a)
                    },
                },
                PowerMenuInput::CancelAction => final(self).pending() is None && effect is Nothing,
            },
    {
        match message {
            PowerMenuInput::Reboot => PowerEffect::Input(PowerMenuInput::ShowConfirmation(PowerAction::Reboot)),
            PowerMenuInput::Shutdown => PowerEffect::Input(PowerMenuInput::ShowConfirmation(PowerAction::Shutdown)),
            PowerMenuInput::ShowConfirmation(action) => {
                self.pending_action = Some(action);
                PowerEffect::Nothing
            },
            PowerMenuInput::ConfirmAction => {
                match self.pending_action {
                    Some(action) => {
                        self.pending_action = None;
                        let cmd = match action {
                            PowerAction::Reboot => clone_strings(&self.config.reboot),
                            PowerAction::Shutdown => clone_strings(&self.config.shutdown),
                        };
                        if cmd.len() == 0 {
                            PowerEffect::Output(PowerMenuOutput::ActionFailed(String::from_str("Empty command")))
                        } else {
                            PowerEffect::Run(cmd)
                        }
                    },
                    None => PowerEffect::Nothing,
                }
            },
            PowerMenuInput::CancelAction => {
                self.pending_action = None;
                PowerEffect::Nothing
            },
        }
    }

    /// The action awaiting confirmation, if any.
    pub fn pending_action(&self) -> (res: Option<PowerAction>)
        ensures
            res == self.pending(),
    {
        self.pending_action
    }

    /// Whether the menu is shown.
    pub fn enabled(&self) -> (res: bool)
        ensures
            res == self.is_enabled(),
    {
        self.enabled
    }
}

/// How running a power command went.
pub enum CommandRun {
    /// It ran to its end: whether it exited successfully, and its exit status as shown.
    Finished { success: bool, status: String },
    /// It could not be run, with this error.
    NotRun(String),
}

/// What the parent is told once a command ran: completion when it exited successfully,
/// else the failure message.
pub open spec fn run_outcome(success: Option<bool>, text: Seq<char>) -> Option<Seq<char>> {
    match success {
        Some(true) => None,
        Some(false) => Some("Command failed with status: "@ + text),
        None => Some("Failed to execute command: "@ + text),
    }
}

/// What the parent is told once a command ran.
pub fn command_outcome(run: CommandRun) -> (res: PowerMenuOutput)
    ensures
        match run {
            CommandRun::Finished { success, status } => match run_outcome(Some(success), status@) {
                None => res is ActionCompleted,
                Some(m) => res matches PowerMenuOutput::ActionFailed(n) && n@ == m,
            },
            CommandRun::NotRun(e) => match run_outcome(None, e@) {
                None => res is ActionCompleted,
                Some(m) => res matches PowerMenuOutput::ActionFailed(n) && n@ == m,
            },
        },
{
    match run {
        CommandRun::Finished { success: true, .. } => PowerMenuOutput::ActionCompleted,
        CommandRun::Finished { success: false, status } => {
            PowerMenuOutput::ActionFailed(String::from_str("Command failed with status: ").concat(status.as_str()))
        },
        CommandRun::NotRun(e) => {
            PowerMenuOutput::ActionFailed(String::from_str("Failed to execute command: ").concat(e.as_str()))
        },
    }
}

/// The confirmation question for a pending action.
pub open spec fn confirmation_text(action: Option<PowerAction>) -> Seq<char> {
    match action {
        Some(PowerAction::Reboot) => "Reboot now?"@,
        Some(PowerAction::Shutdown) => "Shutdown now?"@,
        None => Seq::empty(),
    }
}

/// Format the confirmation message.
pub fn format_confirmation(action: &Option<PowerAction>) -> (res: String)
    ensures
        res@ == confirmation_text(*action),
{
    match action {
        Some(PowerAction::Reboot) => String::from_str("Reboot now?"),
        Some(PowerAction::Shutdown) => String::from_str("Shutdown now?"),
        None => String::new(),
    }
}

} // verus!
