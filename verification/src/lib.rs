//! Waygreet: the logic of an accessibility-first greeter for greetd.

pub mod systemd;
pub mod text;
pub mod audio;
pub mod orca;
pub mod components;
pub mod config;
pub mod session_env;
pub mod session_setup;
pub mod sessions;
pub mod style;
pub mod desktop;
pub mod discovery;
pub mod framing;
pub mod greetd;
pub mod greeter;
