use waygreet::config::{
    AccessibilityConfig, BehaviorConfig, CommandsConfig, EnvironmentConfig, SessionsConfig, State,
};
use waygreet::style::{css_file_with_override, css_source, get_default_css, get_high_contrast_css, CssSource};

#[test]
fn accessibility_defaults() {
    let a = AccessibilityConfig::default();
    assert!(a.start_orca);
    assert!(a.prefer_systemd);
    assert_eq!(a.orca_path, "/usr/bin/orca");
    assert_eq!(a.orca_args, vec!["--replace"]);
    assert!(a.enable_audio);
    assert!(a.setup_atspi);
}

#[test]
fn no_accessibility_turns_off_orca_and_audio() {
    let mut a = AccessibilityConfig::default();
    a.apply_cli_overrides(false);
    assert!(a.start_orca && a.enable_audio);
    a.apply_cli_overrides(true);
    assert!(!a.start_orca);
    assert!(!a.enable_audio);
    assert!(a.setup_atspi);
    assert_eq!(a.orca_path, "/usr/bin/orca");
}

#[test]
fn other_defaults() {
    let s = SessionsConfig::default();
    assert!(s.extra_dirs.is_empty());
    assert_eq!(s.x11_wrapper, vec!["startx"]);
    assert_eq!(s.default_session, "");
    assert!(s.show_x11 && s.show_wayland);

    let b = BehaviorConfig::default();
    assert!(b.remember_user && b.remember_session);
    assert_eq!(b.state_file, "/var/cache/waygreet/state.toml");
    assert_eq!(b.initial_focus, "username");
    assert!(b.show_clock);
    assert_eq!(b.clock_format, "%H:%M");

    let c = CommandsConfig::default();
    assert_eq!(c.reboot, vec!["systemctl", "reboot"]);
    assert_eq!(c.shutdown, vec!["systemctl", "poweroff"]);
    assert!(c.enable_power_menu);

    assert!(EnvironmentConfig::default().vars.is_empty());
    let st = State::default();
    assert!(st.last_user.is_none() && st.last_session.is_none());
}

#[test]
fn built_in_themes() {
    assert!(get_default_css().contains("/* Waygreet Default Theme */"));
    assert!(get_default_css().contains("background-color: #1e1e2e;"));
    assert!(get_high_contrast_css().contains("/* High Contrast Theme */"));
    assert!(get_high_contrast_css().contains("background-color: #000000;"));
    assert_ne!(get_default_css(), get_high_contrast_css());
}

#[test]
fn stylesheet_choice() {
    assert!(matches!(css_source(true, Some("/x.css"), "/etc/waygreet/style.css", true), CssSource::HighContrast));
    match css_source(false, Some("/x.css"), "/etc/waygreet/style.css", true) {
        CssSource::File(p) => assert_eq!(p, "/x.css"),
        other => panic!("unexpected {:?}", other),
    }
    match css_source(false, None, "/etc/waygreet/style.css", true) {
        CssSource::File(p) => assert_eq!(p, "/etc/waygreet/style.css"),
        other => panic!("unexpected {:?}", other),
    }
    assert!(matches!(css_source(false, None, "/etc/waygreet/style.css", false), CssSource::Default));
    assert!(matches!(css_source(false, None, "", true), CssSource::Default));
}

#[test]
fn style_option_replaces_the_configured_file() {
    assert_eq!(css_file_with_override("/etc/greetd/waygreet.css", Some("/tmp/mine.css")), "/tmp/mine.css");
    assert_eq!(css_file_with_override("/etc/greetd/waygreet.css", None), "/etc/greetd/waygreet.css");
    assert_eq!(css_file_with_override("", None), "");
}
