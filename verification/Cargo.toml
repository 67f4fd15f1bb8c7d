[package]
name = "cosmic_paste"
version = "0.1.0"
edition = "2021"
publish = false

[dependencies]
uuid = { version = "=1.29.0", features = ["v4"] }
sha2 = "=0.10.9"
serde = { version = "=1.0.229", features = ["derive"] }
serde_json = "=1.0.154"
ron = "=0.10.1"
dirs = "=6.0.0"
thiserror = "=2.0.21"
tracing = "=0.1.44"
tokio = { version = "=1.54.1", features = ["rt", "rt-multi-thread", "macros", "sync", "time", "signal"] }
zbus = "=5.19.0"
clap = { version = "=4.6.7", features = ["derive"] }
wayland-client = "=0.31.15"
wayland-protocols-wlr = { version = "=0.3.12", features = ["client"] }
rustix = { version = "=1.1.6", features = ["event", "fs"] }
futures-util = "=0.3.34"
notify = "=8.2.1"
tracing-subscriber = { version = "=0.3.23", features = ["env-filter"] }
tracing-journald = "=0.3.2"
ashpd = { version = "=0.13.13", features = ["global_shortcuts"] }
