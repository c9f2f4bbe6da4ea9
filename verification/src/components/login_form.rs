//! Login form: username and password entry, sudo-style (the password is never shown).

use vstd::prelude::*;

use crate::sessions::opt_view;
use crate::text::string_from_chars;

verus! {

/// Login form input messages.
#[derive(Debug, Clone)]
pub enum LoginFormInput {
    /// Set the username.
    SetUsername(String),
    /// Append a character to the password.
    PasswordKeyPress(char),
    /// Delete the last character of the password.
    PasswordBackspace,
    /// Clear the password.
    PasswordClear,
    /// Submit the form.
    Submit,
    /// Clear the form.
    Clear,
    /// Toggle password visibility.
    TogglePasswordVisibility,
    /// Focus the username field.
    FocusUsername,
    /// Focus the password field.
    FocusPassword,
    /// Set the authentication prompt message.
    SetPrompt(String),
    /// Show an error message.
    ShowError(String),
    /// Clear the error message.
    ClearError,
    /// Enable or disable the form.
    SetEnabled(bool),
}

/// Login form output messages.
#[derive(Debug, Clone)]
pub enum LoginFormOutput {
    /// The user submitted credentials.
    Submit { username: String, password: String },
}

/// Login form state.
#[derive(Debug, Clone)]
pub struct LoginForm {
    username: String,
    password: Vec<char>,
    prompt: String,
    error: Option<String>,
    password_visible: bool,
    enabled: bool,
}

/// The login form as plain values.
pub struct LoginFormView {
    pub username: Seq<char>,
    pub password: Seq<char>,
    pub prompt: Seq<char>,
    pub error: Option<Seq<char>>,
    pub password_visible: bool,
    pub enabled: bool,
}

impl View for LoginForm {
    type V = LoginFormView;

    closed spec fn view(&self) -> LoginFormView {
        LoginFormView {
            username: self.username@,
            password: self.password@,
            prompt: self.prompt@,
            error: opt_view(self.error),
            password_visible: self.password_visible,
            enabled: self.enabled,
        }
    }
}

/// The form after one input, and the credentials it submits, if any.
pub open spec fn login_form_step(f: LoginFormView, msg: LoginFormInput) -> (LoginFormView, Option<(Seq<char>, Seq<char>)>) {
    match msg {
        LoginFormInput::SetUsername(u) => (LoginFormView { username: u@, ..f }, None),
        LoginFormInput::PasswordKeyPress(c) => (LoginFormView { password: f.password.push(c), ..f }, None),
        LoginFormInput::PasswordBackspace => (LoginFormView {
            password: if f.password.len() > 0 { f.password.drop_last() } else { f.password },
            ..f
        }, None),
        LoginFormInput::PasswordClear => (LoginFormView { password: Seq::empty(), ..f }, None),
        LoginFormInput::Submit => (f, if f.username.len() > 0 { Some((f.username, f.password)) } else { None }),
        LoginFormInput::Clear => (LoginFormView {
            username: Seq::empty(),
            password: Seq::empty(),
            error: None,
            ..f
        }, None),
        LoginFormInput::TogglePasswordVisibility => (LoginFormView { password_visible: !f.password_visible, ..f }, None),
        LoginFormInput::FocusUsername => (f, None),
        LoginFormInput::FocusPassword => (f, None),
        LoginFormInput::SetPrompt(p) => (LoginFormView { prompt: p@, ..f }, None),
        LoginFormInput::ShowError(e) => (LoginFormView { error: Some(e@), ..f }, None),
        LoginFormInput::ClearError => (LoginFormView { error: None, ..f }, None),
        LoginFormInput::SetEnabled(b) => (LoginFormView { enabled: b, ..f }, None),
    }
}

/// The view of an output message.
pub open spec fn login_output_view(o: Option<LoginFormOutput>) -> Option<(Seq<char>, Seq<char>)> {
    match o {
        Some(LoginFormOutput::Submit { username, password }) => Some((username@, password@)),
        None => None,
    }
}

impl LoginForm {
    /// A fresh form, with the given username filled in (empty if none).
    pub fn new(initial_username: Option<String>) -> (res: Self)
        ensures
            res@ == (LoginFormView {
                username: match initial_username {
                    Some(u) => u@,
                    None => Seq::empty(),
                },
                password: Seq::empty(),
                prompt: "Log In"@,
                error: None,
                password_visible: false,
                enabled: true,
            }),
    {
        let username = match initial_username {
            Some(u) => u,
            None => String::new(),
        };
        LoginForm {
            username,
            password: Vec::new(),
            prompt: String::from_str("Log In"),
            error: None,
            password_visible: false,
            enabled: true,
        }
    }

    /// Handles one input; returns the credentials to submit, if any.
    pub fn update(&mut self, message: LoginFormInput) -> (out: Option<LoginFormOutput>)
        ensures
            (final(self)@, login_output_view(out)) == login_form_step(old(self)@, message),
    {
        match message {
            LoginFormInput::SetUsername(username) => {
                self.username = username;
                None
            },
            LoginFormInput::PasswordKeyPress(ch) => {
                self.password.push(ch);
                None
            },
            LoginFormInput::PasswordBackspace => {
                self.password.pop();
                None
            },
            LoginFormInput::PasswordClear => {
                self.password = Vec::new();
                None
            },
            LoginFormInput::Submit => {
                if !self.username.as_str().is_empty() {
                    Some(LoginFormOutput::Submit {
                        username: self.username.clone(),
                        password: string_from_chars(&self.password),
                    })
                } else {
                    None
                }
            },
            LoginFormInput::Clear => {
                self.username = String::new();
                self.password = Vec::new();
                self.error = None;
                None
            },
            LoginFormInput::TogglePasswordVisibility => {
                self.password_visible = !self.password_visible;
                None
            },
            LoginFormInput::FocusUsername => None,
            LoginFormInput::FocusPassword => None,
            LoginFormInput::SetPrompt(prompt) => {
                self.prompt = prompt;
                None
            },
            LoginFormInput::ShowError(error) => {
                self.error = Some(error);
                None
            },
            LoginFormInput::ClearError => {
                self.error = None;
                None
            },
            LoginFormInput::SetEnabled(enabled) => {
                self.enabled = enabled;
                None
            },
        }
    }

    /// The username typed so far.
    pub fn username(&self) -> (res: &String)
        ensures
            res@ == self@.username,
    {
        &self.username
    }

    /// The number of password characters typed so far.
    pub fn password_len(&self) -> (res: usize)
        ensures
            res == self@.password.len(),
    {
        self.password.len()
    }

    /// The prompt shown above the form.
    pub fn prompt(&self) -> (res: &String)
        ensures
            res@ == self@.prompt,
    {
        &self.prompt
    }

    /// The error message shown, if any.
    pub fn error(&self) -> (res: Option<String>)
        ensures
            opt_view(res) == self@.error,
    {
        match &self.error {
            Some(e) => Some(e.clone()),
            None => None,
        }
    }

    /// Whether the fields accept input.
    pub fn enabled(&self) -> (res: bool)
        ensures
            res == self@.enabled,
    {
        self.enabled
    }

    /// Whether the password would be shown.
    pub fn password_visible(&self) -> (res: bool)
        ensures
            res == self@.password_visible,
    {
        self.password_visible
    }

    /// Whether the submit button is active: the form is enabled and a username is typed.
    pub fn can_submit(&self) -> (res: bool)
        ensures
            res == (self@.enabled && self@.username.len() > 0),
    {
        self.enabled && !self.username.as_str().is_empty()
    }
}

/// A key pressed in the password field, as far as the form tells keys apart.
#[derive(Debug, Clone, Copy, PartialEq, Eq, Structural)]
pub enum PasswordKey {
    BackSpace,
    Delete,
    Return,
    KeypadEnter,
    Tab,
    LeftTab,
    Escape,
    /// Any other key, with the character it types, if any.
    Other(Option<char>),
}

/// What a key press in the password field leads to: an input for the form, and whether the
/// key is consumed (else it propagates to the widget, e.g. for focus navigation).
#[derive(Debug, Clone, Copy, PartialEq, Eq, Structural)]
pub enum PasswordKeyAction {
    Backspace,
    ClearPassword,
    Type(char),
    Propagate,
}

/// Whether `c` is a control character (general category Cc).
pub open spec fn is_control_char(c: char) -> bool {
    (c as u32) <= 0x1f || (0x7f <= (c as u32) && (c as u32) <= 0x9f)
}

/// Backspace deletes a character, Delete clears the password, printable characters are
/// typed, and every other key goes on to the widget.
pub open spec fn password_key_effect(key: PasswordKey) -> PasswordKeyAction {
    match key {
        PasswordKey::BackSpace => PasswordKeyAction::Backspace,
        PasswordKey::Delete => PasswordKeyAction::ClearPassword,
        PasswordKey::Other(Some(c)) => if is_control_char(c) {
            PasswordKeyAction::Propagate
        } else {
            PasswordKeyAction::Type(c)
        },
        _ => PasswordKeyAction::Propagate,
    }
}

/// Decides what a key press in the password field does.
pub fn password_key_action(key: PasswordKey) -> (res: PasswordKeyAction)
    ensures
        res == password_key_effect(key),
{
    match key {
        PasswordKey::BackSpace => PasswordKeyAction::Backspace,
        PasswordKey::Delete => PasswordKeyAction::ClearPassword,
        PasswordKey::Other(Some(c)) => {
            let code = c as u32;
            if code <= 0x1f || (0x7f <= code && code <= 0x9f) {
                PasswordKeyAction::Propagate
            } else {
                PasswordKeyAction::Type(c)
            }
        },
        _ => PasswordKeyAction::Propagate,
    }
}

impl PasswordKeyAction {
    /// The form input that the action sends, if any.
    pub fn input(&self) -> (res: Option<LoginFormInput>)
        ensures
            match *self {
                PasswordKeyAction::Backspace => res matches Some(LoginFormInput::PasswordBackspace),
                PasswordKeyAction::ClearPassword => res matches Some(LoginFormInput::PasswordClear),
                PasswordKeyAction::Type(c) => res matches Some(LoginFormInput::PasswordKeyPress(d)) && d == c,
                PasswordKeyAction::Propagate => res is None,
            },
    {
        match self {
            PasswordKeyAction::Backspace => Some(LoginFormInput::PasswordBackspace),
            PasswordKeyAction::ClearPassword => Some(LoginFormInput::PasswordClear),
            PasswordKeyAction::Type(c) => Some(LoginFormInput::PasswordKeyPress(*c)),
            PasswordKeyAction::Propagate => None,
        }
    }
}

} // verus!
