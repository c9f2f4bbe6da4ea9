//! The greeter's top level: what happens on each user action and greetd answer.

use vstd::prelude::*;

use crate::components::login_form::LoginFormInput;
use crate::components::power_menu::PowerMenuOutput;
use crate::config::{AccessibilityConfig, SessionsConfig, State};
use crate::greetd::{AuthResult, AuthResultView};
use crate::sessions::{opt_view, position_by_name, session_command, session_env, Session, SessionView};
use crate::text::clone_strings;

verus! {

/// Application input messages.
#[derive(Debug, Clone)]
pub enum AppInput {
    /// The login form submitted credentials.
    LoginSubmit { username: String, password: String },
    /// A session was selected.
    SessionSelected(Session),
    /// A power menu action ended.
    PowerAction(PowerMenuOutput),
    /// greetd answered an authentication step.
    GreetdResponse(AuthResult),
    /// Talking to greetd failed.
    GreetdError(String),
    /// Clear errors and start over.
    Reset,
}

/// What the greeter asks to be done in answer to an input.
#[derive(Debug, Clone)]
pub enum AppAction {
    /// Send this input to the login form.
    Login(LoginFormInput),
    /// Authenticate with these credentials; the result comes back as `GreetdResponse` or
    /// `GreetdError`.
    Authenticate { username: String, password: String },
    /// Save this state for the next run (a failure is only logged).
    SaveState(State),
    /// Start the user's session; a failure comes back through `session_start_failed`.
    StartSession { cmd: Vec<String>, env: Vec<String> },
    /// Connect to greetd anew.
    Reconnect,
}

/// The greeter's state.
#[derive(Debug)]
pub struct Greeter {
    demo_mode: bool,
    sessions_config: SessionsConfig,
    extra_env: Vec<(String, String)>,
    sessions: Vec<Session>,
    selected_session: Option<Session>,
    authenticating: bool,
    current_username: String,
}

/// The views of a list of sessions.
pub open spec fn session_list(s: Seq<Session>) -> Seq<SessionView> {
    s.map_values(|x: Session| x@)
}

/// The environment entries `KEY=value` for the configured variables.
pub open spec fn env_entries(vars: Seq<(String, String)>) -> Seq<Seq<char>> {
    vars.map_values(|kv: (String, String)| kv.0@ + "="@ + kv.1@)
}

/// Whether `a` sends `expected` to the login form (comparing strings by their characters).
pub open spec fn sends(a: AppAction, expected: LoginFormInput) -> bool {
    match (a, expected) {
        (AppAction::Login(LoginFormInput::SetUsername(x)), LoginFormInput::SetUsername(y)) => x@ == y@,
        (AppAction::Login(LoginFormInput::SetPrompt(x)), LoginFormInput::SetPrompt(y)) => x@ == y@,
        (AppAction::Login(LoginFormInput::ShowError(x)), LoginFormInput::ShowError(y)) => x@ == y@,
        (AppAction::Login(LoginFormInput::SetEnabled(x)), LoginFormInput::SetEnabled(y)) => x == y,
        (AppAction::Login(LoginFormInput::PasswordKeyPress(x)), LoginFormInput::PasswordKeyPress(y)) => x == y,
        (AppAction::Login(LoginFormInput::PasswordBackspace), LoginFormInput::PasswordBackspace) => true,
        (AppAction::Login(LoginFormInput::PasswordClear), LoginFormInput::PasswordClear) => true,
        (AppAction::Login(LoginFormInput::Submit), LoginFormInput::Submit) => true,
        (AppAction::Login(LoginFormInput::Clear), LoginFormInput::Clear) => true,
        (AppAction::Login(LoginFormInput::TogglePasswordVisibility), LoginFormInput::TogglePasswordVisibility) => true,
        (AppAction::Login(LoginFormInput::FocusUsername), LoginFormInput::FocusUsername) => true,
        (AppAction::Login(LoginFormInput::FocusPassword), LoginFormInput::FocusPassword) => true,
        (AppAction::Login(LoginFormInput::ClearError), LoginFormInput::ClearError) => true,
        _ => false,
    }
}

/// Whether `a` shows error `msg` in the login form.
pub open spec fn shows_error(a: AppAction, msg: Seq<char>) -> bool {
    a matches AppAction::Login(LoginFormInput::ShowError(m)) && m@ == msg
}

/// Whether `a` sets the login form's prompt to `msg`.
pub open spec fn sets_prompt(a: AppAction, msg: Seq<char>) -> bool {
    a matches AppAction::Login(LoginFormInput::SetPrompt(m)) && m@ == msg
}

/// Whether the actions report a failure `msg`: show it, and enable the form again.
pub open spec fn reports_failure(acts: Seq<AppAction>, msg: Seq<char>) -> bool {
    &&& acts.len() == 2
    &&& shows_error(acts[0], msg)
    &&& sends(acts[1], LoginFormInput::SetEnabled(true))
}

/// The message when no session is selected at login.
pub open spec fn no_session_message() -> Seq<char> {
    "No session selected"@
}

impl Greeter {
    /// Whether the greeter runs without greetd.
    pub closed spec fn is_demo(&self) -> bool {
        self.demo_mode
    }

    /// The sessions offered.
    pub closed spec fn offered(&self) -> Seq<SessionView> {
        session_list(self.sessions@)
    }

    /// The session selected, if any.
    pub closed spec fn selected(&self) -> Option<SessionView> {
        match self.selected_session {
            Some(s) => Some(s@),
            None => None,
        }
    }

    /// Whether an authentication is under way.
    pub closed spec fn is_authenticating(&self) -> bool {
        self.authenticating
    }

    /// The user who logs in.
    pub closed spec fn user(&self) -> Seq<char> {
        self.current_username@
    }

    /// The wrapper command for X11 sessions.
    pub closed spec fn x11_wrapper(&self) -> Seq<Seq<char>> {
        self.sessions_config.x11_wrapper.deep_view()
    }

    /// The configured environment entries for the session.
    pub closed spec fn extra_entries(&self) -> Seq<Seq<char>> {
        env_entries(self.extra_env@)
    }

    /// The greeter at start: the first session selected, the remembered user (if any)
    /// filled in, nothing under way.
    pub fn new(
        demo_mode: bool,
        sessions: Vec<Session>,
        state: &State,
        sessions_config: SessionsConfig,
        extra_env: Vec<(String, String)>,
    ) -> (res: Self)
        ensures
            res.is_demo() == demo_mode,
            res.offered() == session_list(sessions@),
            res.selected() == (if sessions@.len() > 0 {
                Some(sessions@[0]@)
            } else {
                None::<SessionView>
            }),
            !res.is_authenticating(),
            res.user() == (match state.last_user {
                Some(u) => u@,
                None => Seq::<char>::empty(),
            }),
            res.x11_wrapper() == sessions_config.x11_wrapper.deep_view(),
            res.extra_entries() == env_entries(extra_env@),
    {
        let selected_session = if sessions.len() > 0 {
            Some(sessions[0].clone())
        } else {
            None
        };
        let current_username = match &state.last_user {
            Some(u) => u.clone(),
            None => String::new(),
        };
        Greeter {
            demo_mode,
            sessions_config,
            extra_env,
            sessions,
            selected_session,
            authenticating: false,
            current_username,
        }
    }

    /// The index of the remembered session among those offered, to preselect it.
    pub fn initial_selection(&self, state: &State) -> (res: Option<usize>)
        ensures
            match state.last_session {
                None => res is None,
                Some(name) => match res {
                    Some(i) => i < self.offered().len() && self.offered()[i as int].name == name@
                        && forall|j: int| 0 <= j < i ==> self.offered()[j].name != name@,
                    None => forall|j: int| 0 <= j < self.offered().len() ==> self.offered()[j].name != name@,
                },
            },
    {
        match &state.last_session {
            Some(name) => position_by_name(self.sessions.as_slice(), name.as_str()),
            None => None,
        }
    }

    /// The state remembered for the next run: the user and the selected session's name.
    pub fn state_to_save(&self) -> (res: State)
        ensures
            opt_view(res.last_user) == Some(self.user()),
            opt_view(res.last_session) == (match self.selected() {
                Some(s) => Some(s.name),
                None => None::<Seq<char>>,
            }),
    {
        State {
            last_user: Some(self.current_username.clone()),
            last_session: match &self.selected_session {
                Some(s) => Some(s.name.clone()),
                None => None,
            },
        }
    }

    /// The command and environment that start the selected session, if one is selected.
    pub fn session_launch(&self) -> (res: Option<(Vec<String>, Vec<String>)>)
        ensures
            match self.selected() {
                None => res is None,
                Some(s) => res matches Some((cmd, env))
                    && cmd.deep_view() == session_command(s, self.x11_wrapper())
                    && env.deep_view() == session_env(s) + self.extra_entries(),
            },
    {
        match &self.selected_session {
            None => None,
            Some(session) => {
                let cmd = session.get_command(&self.sessions_config);
                let mut env = session.get_env();
                let mut i: usize = 0;
                let ghost base = env.deep_view();
                let ghost entries = env_entries(self.extra_env@);
                assert(base + entries.take(0) =~= base);
                while i < self.extra_env.len()
                    invariant
                        i <= self.extra_env@.len(),
                        entries == env_entries(self.extra_env@),
                        env.deep_view() == base + entries.take(i as int),
                    decreases self.extra_env@.len() - i,
                {
                    let (key, value) = &self.extra_env[i];
                    let entry = key.clone().concat("=").concat(value.as_str());
                    let ghost before = env.deep_view();
                    env.push(entry);
                    assert(env.deep_view() =~= before.push(entry@));
                    assert(entries.take(i + 1) =~= entries.take(i as int).push(entries[i as int]));
                    i = i + 1;
                }
                assert(entries.take(i as int) =~= entries);
                Some((cmd, env))
            },
        }
    }

    /// Handles one input; returns what is to be done, in order.
    pub fn update(&mut self, message: AppInput) -> (acts: Vec<AppAction>)
        ensures
            final(self).is_demo() == old(self).is_demo(),
            final(self).offered() == old(self).offered(),
            final(self).x11_wrapper() == old(self).x11_wrapper(),
            final(self).extra_entries() == old(self).extra_entries(),
            match message {
                AppInput::LoginSubmit { username, password } => {
                    &&& final(self).user() == username@
                    &&& final(self).is_authenticating()
                    &&& final(self).selected() == old(self).selected()
                    &&& acts@.len() == 3
                    &&& sends(acts@[0], LoginFormInput::SetEnabled(false))
                    &&& sends(acts@[1], LoginFormInput::ClearError)
                    &&& acts@[2] matches AppAction::Authenticate { username: u, password: p }
                        && u@ == username@ && p@ == password@
                },
                AppInput::SessionSelected(s) => {
                    &&& final(self).selected() == Some(s@)
                    &&& final(self).user() == old(self).user()
                    &&& final(self).is_authenticating() == old(self).is_authenticating()
                    &&& acts@.len() == 0
                },
                AppInput::PowerAction(out) => {
                    &&& final(self).selected() == old(self).selected()
                    &&& final(self).user() == old(self).user()
                    &&& final(self).is_authenticating() == old(self).is_authenticating()
                    &&& match out {
                        PowerMenuOutput::ActionCompleted => acts@.len() == 0,
                        PowerMenuOutput::ActionFailed(m) => acts@.len() == 1 && shows_error(acts@[0], m@),
                    }
                },
                AppInput::GreetdResponse(result) => {
                    &&& final(self).selected() == old(self).selected()
                    &&& final(self).user() == old(self).user()
                    &&& match result@ {
                        AuthResultView::NeedInput { message_type, message } => {
                            &&& final(self).is_authenticating() == old(self).is_authenticating()
                            &&& acts@.len() == 3
                            &&& sets_prompt(acts@[0], message)
                            &&& sends(acts@[1], LoginFormInput::SetEnabled(true))
                            &&& sends(acts@[2], LoginFormInput::FocusPassword)
                        },
                        AuthResultView::Success => {
                            &&& final(self).is_authenticating() == old(self).is_authenticating()
                            &&& acts@.len() >= 1
                            &&& acts@[0] matches AppAction::SaveState(st)
                                && opt_view(st.last_user) == Some(old(self).user())
                                && opt_view(st.last_session) == (match old(self).selected() {
                                    Some(s) => Some(s.name),
                                    None => None::<Seq<char>>,
                                })
                            &&& match old(self).selected() {
                                Some(s) => acts@.len() == 2 && (acts@[1] matches AppAction::StartSession { cmd, env }
                                    && cmd.deep_view() == session_command(s, old(self).x11_wrapper())
                                    && env.deep_view() == session_env(s) + old(self).extra_entries()),
                                None => reports_failure(acts@.drop_first(), no_session_message()),
                            }
                        },
                        AuthResultView::Failed(m) => {
                            &&& !final(self).is_authenticating()
                            &&& reports_failure(acts@, m)
                        },
                    }
                },
                AppInput::GreetdError(m) => {
                    &&& final(self).selected() == old(self).selected()
                    &&& final(self).user() == old(self).user()
                    &&& !final(self).is_authenticating()
                    &&& reports_failure(acts@, m@)
                },
                AppInput::Reset => {
                    &&& final(self).selected() == old(self).selected()
                    &&& final(self).user() == old(self).user()
                    &&& !final(self).is_authenticating()
                    &&& acts@.len() == (if old(self).is_demo() { 3int } else { 4int })
                    &&& sends(acts@[0], LoginFormInput::Clear)
                    &&& sends(acts@[1], LoginFormInput::SetEnabled(true))
                    &&& sets_prompt(acts@[2], "Log In"@)
                    &&& !old(self).is_demo() ==> acts@[3] is Reconnect
                },
            },
    {
        let mut acts: Vec<AppAction> = Vec::new();
        match message {
            AppInput::LoginSubmit { username, password } => {
                self.current_username = username.clone();
                self.authenticating = true;
                acts.push(AppAction::Login(LoginFormInput::SetEnabled(false)));
                acts.push(AppAction::Login(LoginFormInput::ClearError));
                acts.push(AppAction::Authenticate { username, password });
            },
            AppInput::SessionSelected(session) => {
                self.selected_session = Some(session);
            },
            AppInput::PowerAction(action) => {
                match action {
                    PowerMenuOutput::ActionCompleted => {},
                    PowerMenuOutput::ActionFailed(msg) => {
                        acts.push(AppAction::Login(LoginFormInput::ShowError(msg)));
                    },
                }
            },
            AppInput::GreetdResponse(result) => {
                match result {
                    AuthResult::NeedInput { message_type, message } => {
                        acts.push(AppAction::Login(LoginFormInput::SetPrompt(message)));
                        acts.push(AppAction::Login(LoginFormInput::SetEnabled(true)));
                        acts.push(AppAction::Login(LoginFormInput::FocusPassword));
                    },
                    AuthResult::Success => {
                        acts.push(AppAction::SaveState(self.state_to_save()));
                        match self.session_launch() {
                            Some((cmd, env)) => {
                                acts.push(AppAction::StartSession { cmd, env });
                            },
                            None => {
                                acts.push(AppAction::Login(LoginFormInput::ShowError(String::from_str("No session selected"))));
                                acts.push(AppAction::Login(LoginFormInput::SetEnabled(true)));
                            },
                        }
                    },
                    AuthResult::Failed(msg) => {
                        acts.push(AppAction::Login(LoginFormInput::ShowError(msg)));
                        acts.push(AppAction::Login(LoginFormInput::SetEnabled(true)));
                        self.authenticating = false;
                    },
                }
            },
            AppInput::GreetdError(msg) => {
                acts.push(AppAction::Login(LoginFormInput::ShowError(msg)));
                acts.push(AppAction::Login(LoginFormInput::SetEnabled(true)));
                self.authenticating = false;
            },
            AppInput::Reset => {
                acts.push(AppAction::Login(LoginFormInput::Clear));
                acts.push(AppAction::Login(LoginFormInput::SetEnabled(true)));
                acts.push(AppAction::Login(LoginFormInput::SetPrompt(String::from_str("Log In"))));
                self.authenticating = false;
                if !self.demo_mode {
                    acts.push(AppAction::Reconnect);
                }
            },
        }
        proof {
            if acts@.len() > 1 {
                assert(acts@.drop_first()[0] == acts@[1]);
            }
            if acts@.len() > 2 {
                assert(acts@.drop_first()[1] == acts@[2]);
            }
        }
        acts
    }

    /// What is done when starting the session failed: show the message and enable the form.
    pub fn session_start_failed(&self, msg: String) -> (acts: Vec<AppAction>)
        ensures
            reports_failure(acts@, msg@),
    {
        let mut acts: Vec<AppAction> = Vec::new();
        acts.push(AppAction::Login(LoginFormInput::ShowError(msg)));
        acts.push(AppAction::Login(LoginFormInput::SetEnabled(true)));
        acts
    }

    /// The sessions offered.
    pub fn sessions(&self) -> (res: &Vec<Session>)
        ensures
            session_list(res@) == self.offered(),
    {
        &self.sessions
    }

    /// Whether the greeter runs without greetd.
    pub fn demo_mode(&self) -> (res: bool)
        ensures
            res == self.is_demo(),
    {
        self.demo_mode
    }
}

/// Which authenticator the greeter uses.
#[derive(Debug, Clone, Copy, PartialEq, Eq, Structural)]
pub enum AuthKind {
    /// greetd, over the connection that was made.
    Greetd,
    /// The demo authenticator.
    Demo,
}

/// The authenticator to use: greetd when not in demo mode and the connection to greetd was
/// made; the demo authenticator in demo mode, or as a fall-back when greetd could not be
/// reached.
pub fn auth_kind(demo_mode: bool, connected: bool) -> (res: AuthKind)
    ensures
        res == (if !demo_mode && connected { AuthKind::Greetd } else { AuthKind::Demo }),
{
    if !demo_mode && connected {
        AuthKind::Greetd
    } else {
        AuthKind::Demo
    }
}

/// What comes after greetd answered the start of an authentication.
#[derive(Debug, Clone)]
pub enum AuthContinuation {
    /// Answer the message with the password.
    SendPassword,
    /// Authentication is over, with this result.
    Finished(AuthResult),
}

/// Decides what follows the answer to the start of an authentication: any message is
/// answered with the password (a visible prompt too); other results end it.
pub fn after_start(result: AuthResult) -> (res: AuthContinuation)
    ensures
        match result@ {
            AuthResultView::NeedInput { .. } => res is SendPassword,
            _ => res matches AuthContinuation::Finished(r) && r@ == result@,
        },
{
    match result {
        AuthResult::NeedInput { .. } => AuthContinuation::SendPassword,
        other => AuthContinuation::Finished(other),
    }
}

/// Whether Orca is to be started: accessibility is not switched off on the command line and
/// the configuration asks for it.
pub fn should_start_orca(no_accessibility: bool, config: &AccessibilityConfig) -> (res: bool)
    ensures
        res == (!no_accessibility && config.start_orca),
{
    !no_accessibility && config.start_orca
}

} // verus!
