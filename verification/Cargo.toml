[package]
name = "waygreet"
version = "0.1.0"
edition = "2021"
publish = false

[dependencies]
anyhow = "1"
clap = { version = "4", features = ["derive"] }
freedesktop_entry_parser = "1.3"
greetd_ipc = "0.10"
gtk4 = { version = "0.9", features = ["v4_12"] }
gtk4-layer-shell = "0.4"
nix = { version = "0.29", features = ["user"] }
relm4 = "0.9"
serde = { version = "1", features = ["derive"] }
serde_json = "1"
tokio = { version = "1", features = ["full"] }
toml = "0.8"
tracing = "0.1"
tracing-subscriber = { version = "0.3", features = ["env-filter"] }
