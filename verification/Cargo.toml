[package]
name = "libinput-rs"
version = "0.1.0"
edition = "2021"
publish = false

[dependencies]
evdev = "0.12"
mio = { version = "1", features = ["os-poll", "os-ext"] }
nix = { version = "0.29", features = ["inotify"] }
log = "0.4"
env_logger = "0.11"
serde = { version = "1", features = ["derive"] }
serde_json = "1"
