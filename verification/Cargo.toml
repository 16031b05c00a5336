[package]
name = "usage_tracker"
version = "0.2.0"
edition = "2021"
publish = false

[dependencies]
anyhow = "1"
atty = "0.2"
chrono = { version = "0.4", features = ["serde"] }
human-panic = "1"
ron = "0.6"
serde = { version = "1", features = ["derive"] }
serde_json = "1"
standard_paths = "*"
structopt = "0.3"
thiserror = "1"
