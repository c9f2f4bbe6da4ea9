use waygreet::components::login_form::LoginFormInput;
use waygreet::components::power_menu::PowerMenuOutput;
use waygreet::config::{AccessibilityConfig, SessionsConfig, State};
use waygreet::greetd::{AuthResult, MessageType};
use waygreet::greeter::{
    after_start, auth_kind, should_start_orca, AppAction, AppInput, AuthContinuation, AuthKind, Greeter,
};
use waygreet::sessions::{Session, SessionType};

fn session(name: &str, session_type: SessionType, desktop: Option<&str>) -> Session {
    Session {
        name: name.to_string(),
        exec_args: vec![name.to_lowercase()],
        session_type,
        comment: None,
        desktop_names: desktop.map(|d| d.to_string()),
        icon: None,
        file_path: String::new(),
    }
}

fn greeter(demo: bool) -> Greeter {
    let sessions = vec![session("Sway", SessionType::Wayland, Some("sway")), session("i3", SessionType::X11, None)];
    let state = State { last_user: Some("alice".to_string()), last_session: Some("i3".to_string()) };
    Greeter::new(
        demo,
        sessions,
        &state,
        SessionsConfig::default(),
        vec![("LANG".to_string(), "en_US.UTF-8".to_string())],
    )
}

fn error_shown(action: &AppAction) -> Option<String> {
    match action {
        AppAction::Login(LoginFormInput::ShowError(m)) => Some(m.clone()),
        _ => None,
    }
}

#[test]
fn initial_selection_comes_from_the_saved_state() {
    let g = greeter(false);
    let state = State { last_user: None, last_session: Some("i3".to_string()) };
    assert_eq!(g.initial_selection(&state), Some(1));
    let state = State { last_user: None, last_session: Some("KDE".to_string()) };
    assert_eq!(g.initial_selection(&state), None);
    assert_eq!(g.initial_selection(&State::default()), None);
    assert_eq!(g.sessions().len(), 2);
    assert!(!g.demo_mode());
}

#[test]
fn submitting_starts_authentication() {
    let mut g = greeter(false);
    let acts = g.update(AppInput::LoginSubmit { username: "bob".to_string(), password: "pw".to_string() });
    assert_eq!(acts.len(), 3);
    assert!(matches!(acts[0], AppAction::Login(LoginFormInput::SetEnabled(false))));
    assert!(matches!(acts[1], AppAction::Login(LoginFormInput::ClearError)));
    match &acts[2] {
        AppAction::Authenticate { username, password } => {
            assert_eq!(username, "bob");
            assert_eq!(password, "pw");
        }
        other => panic!("unexpected {:?}", other),
    }
    let saved = g.state_to_save();
    assert_eq!(saved.last_user.as_deref(), Some("bob"));
}

#[test]
fn success_saves_state_and_starts_the_selected_session() {
    let mut g = greeter(false);
    g.update(AppInput::SessionSelected(session("i3", SessionType::X11, None)));
    let acts = g.update(AppInput::GreetdResponse(AuthResult::Success));
    assert_eq!(acts.len(), 2);
    match &acts[0] {
        AppAction::SaveState(st) => {
            assert_eq!(st.last_user.as_deref(), Some("alice"));
            assert_eq!(st.last_session.as_deref(), Some("i3"));
        }
        other => panic!("unexpected {:?}", other),
    }
    match &acts[1] {
        AppAction::StartSession { cmd, env } => {
            assert_eq!(cmd, &vec!["startx", "i3"]);
            assert_eq!(env, &vec!["XDG_SESSION_TYPE=x11", "LANG=en_US.UTF-8"]);
        }
        other => panic!("unexpected {:?}", other),
    }
}

#[test]
fn wayland_session_gets_its_desktop() {
    let g = greeter(false);
    let (cmd, env) = g.session_launch().unwrap();
    assert_eq!(cmd, vec!["sway"]);
    assert_eq!(env, vec!["XDG_SESSION_TYPE=wayland", "XDG_CURRENT_DESKTOP=sway", "LANG=en_US.UTF-8"]);
}

#[test]
fn success_without_a_session_is_reported() {
    let mut g = Greeter::new(false, vec![], &State::default(), SessionsConfig::default(), vec![]);
    assert!(g.session_launch().is_none());
    let acts = g.update(AppInput::GreetdResponse(AuthResult::Success));
    assert_eq!(acts.len(), 3);
    assert!(matches!(acts[0], AppAction::SaveState(_)));
    assert_eq!(error_shown(&acts[1]), Some("No session selected".to_string()));
    assert!(matches!(acts[2], AppAction::Login(LoginFormInput::SetEnabled(true))));
}

#[test]
fn a_prompt_from_greetd_is_shown() {
    let mut g = greeter(false);
    let acts = g.update(AppInput::GreetdResponse(AuthResult::NeedInput {
        message_type: MessageType::Secret,
        message: "Password:".to_string(),
    }));
    assert_eq!(acts.len(), 3);
    match &acts[0] {
        AppAction::Login(LoginFormInput::SetPrompt(p)) => assert_eq!(p, "Password:"),
        other => panic!("unexpected {:?}", other),
    }
    assert!(matches!(acts[1], AppAction::Login(LoginFormInput::SetEnabled(true))));
    assert!(matches!(acts[2], AppAction::Login(LoginFormInput::FocusPassword)));
}

#[test]
fn failures_are_shown_and_the_form_enabled() {
    let mut g = greeter(false);
    let acts = g.update(AppInput::GreetdResponse(AuthResult::Failed("Authentication failed".to_string())));
    assert_eq!(acts.len(), 2);
    assert_eq!(error_shown(&acts[0]), Some("Authentication failed".to_string()));
    assert!(matches!(acts[1], AppAction::Login(LoginFormInput::SetEnabled(true))));
    let acts = g.update(AppInput::GreetdError("connection lost".to_string()));
    assert_eq!(error_shown(&acts[0]), Some("connection lost".to_string()));
    let acts = g.session_start_failed("exec failed".to_string());
    assert_eq!(acts.len(), 2);
    assert_eq!(error_shown(&acts[0]), Some("exec failed".to_string()));
}

#[test]
fn power_failures_are_shown() {
    let mut g = greeter(false);
    assert!(g.update(AppInput::PowerAction(PowerMenuOutput::ActionCompleted)).is_empty());
    let acts = g.update(AppInput::PowerAction(PowerMenuOutput::ActionFailed("Empty command".to_string())));
    assert_eq!(acts.len(), 1);
    assert_eq!(error_shown(&acts[0]), Some("Empty command".to_string()));
}

#[test]
fn reset_clears_and_reconnects_unless_in_demo_mode() {
    let mut g = greeter(false);
    let acts = g.update(AppInput::Reset);
    assert_eq!(acts.len(), 4);
    assert!(matches!(acts[0], AppAction::Login(LoginFormInput::Clear)));
    assert!(matches!(acts[1], AppAction::Login(LoginFormInput::SetEnabled(true))));
    match &acts[2] {
        AppAction::Login(LoginFormInput::SetPrompt(p)) => assert_eq!(p, "Log In"),
        other => panic!("unexpected {:?}", other),
    }
    assert!(matches!(acts[3], AppAction::Reconnect));
    let mut demo = greeter(true);
    assert_eq!(demo.update(AppInput::Reset).len(), 3);
}

#[test]
fn authentication_continues_only_when_input_is_needed() {
    let need = AuthResult::NeedInput { message_type: MessageType::Secret, message: "Password:".to_string() };
    assert!(matches!(after_start(need), AuthContinuation::SendPassword));
    assert!(matches!(after_start(AuthResult::Success), AuthContinuation::Finished(AuthResult::Success)));
    match after_start(AuthResult::Failed("x".to_string())) {
        AuthContinuation::Finished(AuthResult::Failed(m)) => assert_eq!(m, "x"),
        other => panic!("unexpected {:?}", other),
    }
}

#[test]
fn orca_starts_only_when_wanted() {
    let config = AccessibilityConfig::default();
    assert!(should_start_orca(false, &config));
    assert!(!should_start_orca(true, &config));
    let mut off = AccessibilityConfig::default();
    off.start_orca = false;
    assert!(!should_start_orca(false, &off));
}

#[test]
fn greetd_is_used_only_when_connected_outside_demo_mode() {
    assert_eq!(auth_kind(false, true), AuthKind::Greetd);
    assert_eq!(auth_kind(false, false), AuthKind::Demo);
    assert_eq!(auth_kind(true, true), AuthKind::Demo);
    assert_eq!(auth_kind(true, false), AuthKind::Demo);
}
