[package]
name = "barge"
version = "0.1.0"
edition = "2021"
publish = false

[dependencies]
ansi_term = "0.12"
chrono = "0.4"
clap = "4"
lazy_static = "1"
serde = { version = "1", features = ["derive"] }
serde_json = "1"
sysinfo = "0.25"
