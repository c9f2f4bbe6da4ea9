use waygreet::components::login_form::{
    password_key_action, LoginForm, LoginFormInput, LoginFormOutput, PasswordKey, PasswordKeyAction,
};
use waygreet::components::power_menu::{
    command_outcome, format_confirmation, CommandRun, PowerAction, PowerEffect, PowerMenu, PowerMenuInput,
    PowerMenuOutput,
};
use waygreet::components::session_selector::{
    format_session_type, SelectorEffect, SessionSelector, SessionSelectorInput, SessionSelectorOutput,
};
use waygreet::config::CommandsConfig;
use waygreet::sessions::{Session, SessionType};

fn session(name: &str, session_type: SessionType) -> Session {
    Session {
        name: name.to_string(),
        exec_args: vec![name.to_lowercase()],
        session_type,
        comment: None,
        desktop_names: None,
        icon: None,
        file_path: String::new(),
    }
}

fn selected_name(effect: SelectorEffect) -> Option<String> {
    match effect {
        SelectorEffect::Output(SessionSelectorOutput::SessionSelected(s)) => Some(s.name),
        _ => None,
    }
}

#[test]
fn login_form_starts_with_the_remembered_user() {
    let form = LoginForm::new(Some("alice".to_string()));
    assert_eq!(form.username(), "alice");
    assert_eq!(form.password_len(), 0);
    assert_eq!(form.prompt(), "Log In");
    assert_eq!(form.error(), None);
    assert!(form.enabled());
    assert!(!form.password_visible());
    assert!(form.can_submit());
    let empty = LoginForm::new(None);
    assert_eq!(empty.username(), "");
    assert!(!empty.can_submit());
}

#[test]
fn login_form_collects_the_password_key_by_key() {
    let mut form = LoginForm::new(Some("bob".to_string()));
    for c in "secret".chars() {
        assert!(form.update(LoginFormInput::PasswordKeyPress(c)).is_none());
    }
    assert_eq!(form.password_len(), 6);
    form.update(LoginFormInput::PasswordBackspace);
    assert_eq!(form.password_len(), 5);
    match form.update(LoginFormInput::Submit) {
        Some(LoginFormOutput::Submit { username, password }) => {
            assert_eq!(username, "bob");
            assert_eq!(password, "secre");
        }
        None => panic!("submit gave nothing"),
    }
    form.update(LoginFormInput::PasswordClear);
    assert_eq!(form.password_len(), 0);
    form.update(LoginFormInput::PasswordBackspace);
    assert_eq!(form.password_len(), 0);
}

#[test]
fn login_form_does_not_submit_without_a_user() {
    let mut form = LoginForm::new(None);
    form.update(LoginFormInput::PasswordKeyPress('x'));
    assert!(form.update(LoginFormInput::Submit).is_none());
    form.update(LoginFormInput::SetUsername("carol".to_string()));
    assert!(form.update(LoginFormInput::Submit).is_some());
}

#[test]
fn login_form_messages_and_clearing() {
    let mut form = LoginForm::new(Some("dave".to_string()));
    form.update(LoginFormInput::SetPrompt("Password:".to_string()));
    assert_eq!(form.prompt(), "Password:");
    form.update(LoginFormInput::ShowError("Authentication failed".to_string()));
    assert_eq!(form.error(), Some("Authentication failed".to_string()));
    form.update(LoginFormInput::ClearError);
    assert_eq!(form.error(), None);
    form.update(LoginFormInput::TogglePasswordVisibility);
    assert!(form.password_visible());
    form.update(LoginFormInput::SetEnabled(false));
    assert!(!form.enabled());
    assert!(!form.can_submit());
    form.update(LoginFormInput::PasswordKeyPress('p'));
    form.update(LoginFormInput::ShowError("x".to_string()));
    form.update(LoginFormInput::Clear);
    assert_eq!(form.username(), "");
    assert_eq!(form.password_len(), 0);
    assert_eq!(form.error(), None);
    assert_eq!(form.prompt(), "Password:");
}

#[test]
fn password_keys() {
    assert_eq!(password_key_action(PasswordKey::BackSpace), PasswordKeyAction::Backspace);
    assert_eq!(password_key_action(PasswordKey::Delete), PasswordKeyAction::ClearPassword);
    assert_eq!(password_key_action(PasswordKey::Return), PasswordKeyAction::Propagate);
    assert_eq!(password_key_action(PasswordKey::KeypadEnter), PasswordKeyAction::Propagate);
    assert_eq!(password_key_action(PasswordKey::Tab), PasswordKeyAction::Propagate);
    assert_eq!(password_key_action(PasswordKey::LeftTab), PasswordKeyAction::Propagate);
    assert_eq!(password_key_action(PasswordKey::Escape), PasswordKeyAction::Propagate);
    assert_eq!(password_key_action(PasswordKey::Other(Some('a'))), PasswordKeyAction::Type('a'));
    assert_eq!(password_key_action(PasswordKey::Other(Some('é'))), PasswordKeyAction::Type('é'));
    assert_eq!(password_key_action(PasswordKey::Other(Some('\u{7}'))), PasswordKeyAction::Propagate);
    assert_eq!(password_key_action(PasswordKey::Other(Some('\u{85}'))), PasswordKeyAction::Propagate);
    assert_eq!(password_key_action(PasswordKey::Other(None)), PasswordKeyAction::Propagate);
}

#[test]
fn power_menu_asks_before_acting() {
    let mut menu = PowerMenu::new(CommandsConfig::default());
    assert!(menu.enabled());
    assert_eq!(menu.pending_action(), None);
    assert!(matches!(
        menu.update(PowerMenuInput::Reboot),
        PowerEffect::Input(PowerMenuInput::ShowConfirmation(PowerAction::Reboot))
    ));
    assert!(matches!(menu.update(PowerMenuInput::ShowConfirmation(PowerAction::Reboot)), PowerEffect::Nothing));
    assert_eq!(menu.pending_action(), Some(PowerAction::Reboot));
    match menu.update(PowerMenuInput::ConfirmAction) {
        PowerEffect::Run(cmd) => assert_eq!(cmd, vec!["systemctl", "reboot"]),
        other => panic!("unexpected {:?}", other),
    }
    assert_eq!(menu.pending_action(), None);
    assert!(matches!(menu.update(PowerMenuInput::ConfirmAction), PowerEffect::Nothing));
}

#[test]
fn power_menu_cancel_and_shutdown() {
    let mut menu = PowerMenu::new(CommandsConfig::default());
    assert!(matches!(
        menu.update(PowerMenuInput::Shutdown),
        PowerEffect::Input(PowerMenuInput::ShowConfirmation(PowerAction::Shutdown))
    ));
    menu.update(PowerMenuInput::ShowConfirmation(PowerAction::Shutdown));
    assert!(matches!(menu.update(PowerMenuInput::CancelAction), PowerEffect::Nothing));
    assert_eq!(menu.pending_action(), None);
    menu.update(PowerMenuInput::ShowConfirmation(PowerAction::Shutdown));
    match menu.update(PowerMenuInput::ConfirmAction) {
        PowerEffect::Run(cmd) => assert_eq!(cmd, vec!["systemctl", "poweroff"]),
        other => panic!("unexpected {:?}", other),
    }
}

#[test]
fn power_menu_with_an_empty_command_fails() {
    let config = CommandsConfig { reboot: vec![], shutdown: vec!["poweroff".to_string()], enable_power_menu: false };
    let mut menu = PowerMenu::new(config);
    assert!(!menu.enabled());
    menu.update(PowerMenuInput::ShowConfirmation(PowerAction::Reboot));
    match menu.update(PowerMenuInput::ConfirmAction) {
        PowerEffect::Output(PowerMenuOutput::ActionFailed(m)) => assert_eq!(m, "Empty command"),
        other => panic!("unexpected {:?}", other),
    }
}

#[test]
fn power_command_outcomes() {
    assert!(matches!(
        command_outcome(CommandRun::Finished { success: true, status: "exit status: 0".to_string() }),
        PowerMenuOutput::ActionCompleted
    ));
    match command_outcome(CommandRun::Finished { success: false, status: "exit status: 1".to_string() }) {
        PowerMenuOutput::ActionFailed(m) => assert_eq!(m, "Command failed with status: exit status: 1"),
        other => panic!("unexpected {:?}", other),
    }
    match command_outcome(CommandRun::NotRun("No such file or directory (os error 2)".to_string())) {
        PowerMenuOutput::ActionFailed(m) => {
            assert_eq!(m, "Failed to execute command: No such file or directory (os error 2)")
        }
        other => panic!("unexpected {:?}", other),
    }
}

#[test]
fn confirmation_questions() {
    assert_eq!(format_confirmation(&Some(PowerAction::Reboot)), "Reboot now?");
    assert_eq!(format_confirmation(&Some(PowerAction::Shutdown)), "Shutdown now?");
    assert_eq!(format_confirmation(&None), "");
}

#[test]
fn selector_cycles_through_sessions() {
    let sessions = vec![
        session("GNOME", SessionType::Wayland),
        session("i3", SessionType::X11),
        session("Sway", SessionType::Wayland),
    ];
    let mut sel = SessionSelector::new(sessions);
    match sel.initial_output() {
        Some(SessionSelectorOutput::SessionSelected(s)) => assert_eq!(s.name, "GNOME"),
        None => panic!("no initial selection"),
    }
    assert_eq!(sel.session_names(), vec!["GNOME", "i3", "Sway"]);
    assert_eq!(sel.selected_type_text(), "(Wayland)");
    match sel.update(SessionSelectorInput::SelectPrevious) {
        SelectorEffect::Input(SessionSelectorInput::SelectByIndex(i)) => assert_eq!(i, 2),
        other => panic!("unexpected {:?}", other),
    }
    assert_eq!(selected_name(sel.update(SessionSelectorInput::SelectByIndex(2))), Some("Sway".to_string()));
    assert_eq!(sel.selected_index(), 2);
    match sel.update(SessionSelectorInput::SelectNext) {
        SelectorEffect::Input(SessionSelectorInput::SelectByIndex(i)) => assert_eq!(i, 0),
        other => panic!("unexpected {:?}", other),
    }
    assert_eq!(selected_name(sel.update(SessionSelectorInput::SelectByIndex(1))), Some("i3".to_string()));
    assert_eq!(sel.selected_session().unwrap().name, "i3");
    assert_eq!(sel.selected_type_text(), "(X11)");
}

#[test]
fn selector_ignores_bad_or_repeated_selection() {
    let mut sel = SessionSelector::new(vec![session("A", SessionType::Wayland), session("B", SessionType::X11)]);
    assert!(matches!(sel.update(SessionSelectorInput::SelectByIndex(0)), SelectorEffect::Nothing));
    assert!(matches!(sel.update(SessionSelectorInput::SelectByIndex(7)), SelectorEffect::Nothing));
    assert_eq!(sel.selected_index(), 0);
}

#[test]
fn selector_with_no_sessions() {
    let mut sel = SessionSelector::new(vec![]);
    assert!(sel.initial_output().is_none());
    assert!(sel.selected_session().is_none());
    assert_eq!(sel.selected_type_text(), "");
    assert!(matches!(sel.update(SessionSelectorInput::SelectNext), SelectorEffect::Nothing));
    assert!(matches!(sel.update(SessionSelectorInput::SelectPrevious), SelectorEffect::Nothing));
    assert_eq!(
        selected_name(sel.update(SessionSelectorInput::SetSessions(vec![session("New", SessionType::X11)]))),
        Some("New".to_string())
    );
    assert_eq!(sel.selected_type_text(), "(X11)");
    assert!(matches!(sel.update(SessionSelectorInput::SetSessions(vec![])), SelectorEffect::Nothing));
}

#[test]
fn session_type_text_out_of_range_is_empty() {
    let sessions = vec![session("A", SessionType::Wayland)];
    assert_eq!(format_session_type(&sessions, 0), "(Wayland)");
    assert_eq!(format_session_type(&sessions, 1), "");
}
