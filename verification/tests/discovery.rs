use waygreet::config::SessionsConfig;
use waygreet::desktop::{parse_desktop_entry, DesktopEntryError};
use waygreet::discovery::{
    dedup_sessions, discover_sessions, is_desktop_file, join_path, session_dirs, sessions_in_dir,
    sort_sessions, DirListing, SessionDir, SessionFile,
};
use waygreet::sessions::{Session, SessionType};

fn entry(name: &str, exec: &str) -> Vec<u8> {
    format!("[Desktop Entry]\nType=Application\nName={}\nExec={}\n", name, exec).into_bytes()
}

fn file(name: &str, contents: Vec<u8>) -> SessionFile {
    SessionFile { file_name: name.to_string(), contents: Some(contents) }
}

fn names(sessions: &[Session]) -> Vec<String> {
    sessions.iter().map(|s| s.name.clone()).collect()
}

fn plain(name: &str) -> Session {
    Session {
        name: name.to_string(),
        exec_args: vec![name.to_lowercase()],
        session_type: SessionType::Wayland,
        comment: None,
        desktop_names: None,
        icon: None,
        file_path: String::new(),
    }
}

#[test]
fn desktop_entry_becomes_a_session() {
    let contents = b"[Desktop Entry]\nType=Application\nName=Sway\nComment=An i3-compatible compositor\nExec=sway --unsupported-gpu %U\nDesktopNames=sway\nIcon=sway\n";
    let s = parse_desktop_entry("/usr/share/wayland-sessions/sway.desktop".to_string(), contents, SessionType::Wayland)
        .unwrap()
        .unwrap();
    assert_eq!(s.name, "Sway");
    assert_eq!(s.exec_args, vec!["sway", "--unsupported-gpu"]);
    assert_eq!(s.session_type, SessionType::Wayland);
    assert_eq!(s.comment.as_deref(), Some("An i3-compatible compositor"));
    assert_eq!(s.desktop_names.as_deref(), Some("sway"));
    assert_eq!(s.icon.as_deref(), Some("sway"));
    assert_eq!(s.file_path, "/usr/share/wayland-sessions/sway.desktop");
}

#[test]
fn desktop_entry_falls_back_to_try_exec() {
    let contents = b"[Desktop Entry]\nType=XSession\nName=i3\nTryExec=i3\n";
    let s = parse_desktop_entry("i3.desktop".to_string(), contents, SessionType::X11).unwrap().unwrap();
    assert_eq!(s.exec_args, vec!["i3"]);
    assert_eq!(s.session_type, SessionType::X11);
}

#[test]
fn desktop_entries_that_are_no_session() {
    let cases: Vec<&[u8]> = vec![
        &b"[Desktop Entry]\nName=NoType\nExec=x\n"[..],
        &b"[Desktop Entry]\nType=Link\nName=Link\nExec=x\n"[..],
        &b"[Desktop Entry]\nType=Application\nName=Hidden\nExec=x\nHidden=true\n"[..],
        &b"[Desktop Entry]\nType=Application\nName=Nodisplay\nExec=x\nNoDisplay=true\n"[..],
        &b"[Desktop Entry]\nType=Application\nExec=x\n"[..],
        &b"[Desktop Entry]\nType=Application\nName=NoExec\n"[..],
    ];
    for contents in cases {
        assert!(parse_desktop_entry("x.desktop".to_string(), contents, SessionType::Wayland).unwrap().is_none());
    }
    let shown = b"[Desktop Entry]\nType=Application\nName=Shown\nExec=x\nHidden=false\n";
    assert!(parse_desktop_entry("x.desktop".to_string(), shown, SessionType::Wayland).unwrap().is_some());
}

#[test]
fn unparsable_desktop_entry_is_an_error() {
    let contents = b"this is not an entry file\n[unterminated\n";
    let res = parse_desktop_entry("broken.desktop".to_string(), contents, SessionType::Wayland);
    assert!(matches!(res, Err(DesktopEntryError::Unparsable)));
}

#[test]
fn searched_directories_follow_the_configuration() {
    let mut config = SessionsConfig::default();
    config.extra_dirs = vec!["/opt/wayland-sessions".to_string(), "/opt/x-sessions".to_string()];
    let dirs = session_dirs(&config);
    let got: Vec<(String, SessionType)> = dirs.iter().map(|d| (d.path.clone(), d.session_type)).collect();
    assert_eq!(
        got,
        vec![
            ("/usr/share/wayland-sessions".to_string(), SessionType::Wayland),
            ("/usr/share/xsessions".to_string(), SessionType::X11),
            ("/opt/wayland-sessions".to_string(), SessionType::Wayland),
            ("/opt/x-sessions".to_string(), SessionType::X11),
        ]
    );
    config.show_wayland = false;
    config.show_x11 = false;
    config.extra_dirs.clear();
    assert!(session_dirs(&config).is_empty());
}

#[test]
fn only_desktop_files_count() {
    assert!(is_desktop_file("sway.desktop"));
    assert!(is_desktop_file("a.b.desktop"));
    assert!(!is_desktop_file(".desktop"));
    assert!(!is_desktop_file("sway.desktop.bak"));
    assert!(!is_desktop_file("README"));
}

#[test]
fn paths_are_joined_like_path_join() {
    assert_eq!(join_path("/usr/share/xsessions", "i3.desktop"), "/usr/share/xsessions/i3.desktop");
    assert_eq!(join_path("/usr/share/xsessions/", "i3.desktop"), "/usr/share/xsessions/i3.desktop");
    assert_eq!(join_path("/run/user/1000", "/bus"), "/bus");
    assert_eq!(join_path("", "bus"), "bus");
}

#[test]
fn sessions_of_a_directory_skip_other_files() {
    let dir = SessionDir { path: "/usr/share/wayland-sessions".to_string(), session_type: SessionType::Wayland };
    let files = vec![
        file("sway.desktop", entry("Sway", "sway")),
        file("notes.txt", entry("Notes", "notes")),
        SessionFile { file_name: "unreadable.desktop".to_string(), contents: None },
        file("broken.desktop", b"garbage [".to_vec()),
    ];
    let found = sessions_in_dir(&dir, &files);
    assert_eq!(names(&found), vec!["Sway"]);
    assert_eq!(found[0].file_path, "/usr/share/wayland-sessions/sway.desktop");
}

#[test]
fn sorting_is_by_lowercased_name_and_stable() {
    let found = vec![plain("beta"), plain("Alpha"), plain("alpha"), plain("Gamma")];
    let sorted = sort_sessions(&found);
    assert_eq!(names(&sorted), vec!["Alpha", "alpha", "beta", "Gamma"]);
}

#[test]
fn dedup_drops_repeated_adjacent_names() {
    let sorted = vec![plain("Alpha"), plain("Alpha"), plain("alpha"), plain("Beta"), plain("Beta")];
    assert_eq!(names(&dedup_sessions(&sorted)), vec!["Alpha", "alpha", "Beta"]);
}

#[test]
fn discovery_sorts_and_dedups_across_directories() {
    let config = SessionsConfig::default();
    let listings = vec![
        DirListing {
            path: "/usr/share/wayland-sessions".to_string(),
            files: Some(vec![file("sway.desktop", entry("Sway", "sway")), file("gnome.desktop", entry("GNOME", "gnome-session"))]),
        },
        DirListing {
            path: "/usr/share/xsessions".to_string(),
            files: Some(vec![file("i3.desktop", entry("i3", "i3")), file("gnome-xorg.desktop", entry("GNOME", "gnome-session"))]),
        },
    ];
    let found = discover_sessions(&config, &listings);
    assert_eq!(names(&found), vec!["GNOME", "i3", "Sway"]);
    assert_eq!(found[0].session_type, SessionType::Wayland);
    assert_eq!(found[1].session_type, SessionType::X11);
}

#[test]
fn discovery_without_listings_finds_nothing() {
    let config = SessionsConfig::default();
    assert!(discover_sessions(&config, &vec![]).is_empty());
    let missing = vec![DirListing { path: "/usr/share/xsessions".to_string(), files: None }];
    assert!(discover_sessions(&config, &missing).is_empty());
}

#[test]
fn hidden_directories_are_not_read() {
    let mut config = SessionsConfig::default();
    config.show_x11 = false;
    let listings = vec![DirListing {
        path: "/usr/share/xsessions".to_string(),
        files: Some(vec![file("i3.desktop", entry("i3", "i3"))]),
    }];
    assert!(discover_sessions(&config, &listings).is_empty());
}
