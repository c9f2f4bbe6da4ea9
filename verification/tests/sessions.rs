use waygreet::config::SessionsConfig;
use waygreet::sessions::{find_session_by_name, get_default_session, parse_exec, Session, SessionType};

fn session(name: &str, exec: &[&str], session_type: SessionType, desktop: Option<&str>) -> Session {
    Session {
        name: name.to_string(),
        exec_args: exec.iter().map(|s| s.to_string()).collect(),
        session_type,
        comment: None,
        desktop_names: desktop.map(|d| d.to_string()),
        icon: None,
        file_path: format!("/usr/share/sessions/{}.desktop", name),
    }
}

#[test]
fn test_parse_exec() {
    assert_eq!(parse_exec("sway"), vec!["sway"]);
    assert_eq!(parse_exec("gnome-session"), vec!["gnome-session"]);
    assert_eq!(
        parse_exec("dbus-run-session gnome-session"),
        vec!["dbus-run-session", "gnome-session"]
    );
    // Field codes should be stripped
    assert_eq!(parse_exec("firefox %u"), vec!["firefox"]);
}

#[test]
fn parse_exec_keeps_quoted_words_together() {
    assert_eq!(parse_exec("sh -c \"exec sway --debug\""), vec!["sh", "-c", "exec sway --debug"]);
    assert_eq!(parse_exec("run 'a b'"), vec!["run", "a b"]);
}

#[test]
fn parse_exec_drops_every_field_code_and_extra_spaces() {
    assert_eq!(parse_exec("  app   %F  --flag %U "), vec!["app", "--flag"]);
    assert_eq!(parse_exec(""), Vec::<String>::new());
}

#[test]
fn session_type_labels() {
    assert_eq!(SessionType::Wayland.label(), "Wayland");
    assert_eq!(SessionType::X11.label(), "X11");
}

#[test]
fn wayland_command_is_exec_as_is() {
    let s = session("Sway", &["sway", "--unsupported-gpu"], SessionType::Wayland, None);
    let config = SessionsConfig::default();
    assert_eq!(s.get_command(&config), vec!["sway", "--unsupported-gpu"]);
}

#[test]
fn x11_command_is_wrapped() {
    let s = session("i3", &["i3"], SessionType::X11, None);
    let mut config = SessionsConfig::default();
    assert_eq!(s.get_command(&config), vec!["startx", "i3"]);
    config.x11_wrapper = vec!["xinit".to_string(), "--".to_string()];
    assert_eq!(s.get_command(&config), vec!["xinit", "--", "i3"]);
}

#[test]
fn session_environment() {
    let w = session("GNOME", &["gnome-session"], SessionType::Wayland, Some("GNOME"));
    assert_eq!(w.get_env(), vec!["XDG_SESSION_TYPE=wayland", "XDG_CURRENT_DESKTOP=GNOME"]);
    let x = session("i3", &["i3"], SessionType::X11, None);
    assert_eq!(x.get_env(), vec!["XDG_SESSION_TYPE=x11"]);
}

#[test]
fn find_by_name_gives_the_first_match() {
    let sessions = vec![
        session("Sway", &["sway"], SessionType::Wayland, None),
        session("i3", &["i3"], SessionType::X11, None),
        session("Sway", &["sway2"], SessionType::Wayland, None),
    ];
    let found = find_session_by_name(&sessions, "Sway").unwrap();
    assert_eq!(found.exec_args, vec!["sway"]);
    assert!(find_session_by_name(&sessions, "sway").is_none());
    assert!(find_session_by_name(&[], "Sway").is_none());
}

#[test]
fn default_session_prefers_configured_then_wayland_then_first() {
    let sessions = vec![
        session("i3", &["i3"], SessionType::X11, None),
        session("Openbox", &["openbox"], SessionType::X11, None),
        session("Sway", &["sway"], SessionType::Wayland, None),
        session("Hyprland", &["Hyprland"], SessionType::Wayland, None),
    ];
    let mut config = SessionsConfig::default();
    assert_eq!(get_default_session(&sessions, &config).unwrap().name, "Sway");
    config.default_session = "Openbox".to_string();
    assert_eq!(get_default_session(&sessions, &config).unwrap().name, "Openbox");
    config.default_session = "Missing".to_string();
    assert_eq!(get_default_session(&sessions, &config).unwrap().name, "Sway");
    let x_only = vec![
        session("i3", &["i3"], SessionType::X11, None),
        session("Openbox", &["openbox"], SessionType::X11, None),
    ];
    assert_eq!(get_default_session(&x_only, &config).unwrap().name, "i3");
    assert!(get_default_session(&[], &config).is_none());
}
