[package]
name = "package-updater"
version = "0.1.0"
edition = "2021"
publish = false

[dependencies]
anyhow = "1"
async-stream = "0.3"
futures = "0.3"
notify = "8"
serde = { version = "1", features = ["derive"] }
tokio = { version = "1", features = ["process", "time", "rt", "macros"] }
zbus = "5"
