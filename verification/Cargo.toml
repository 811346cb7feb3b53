[package]
name = "tsbot"
version = "0.1.0"
edition = "2021"
publish = false

[dependencies]
anyhow = "1"
audiopus = "0.2"
byteorder = "1"
env_logger = "*"
futures = "0.3"
log = "0.4"
serde = { version = "1", features = ["derive"] }
serde_json = "1"
tokio = { version = "1", features = ["macros", "rt-multi-thread", "signal", "sync", "time"] }
tsclientlib = { version = "*", default-features = false }
tsproto-packets = "*"
which = "4"
