[package]
name = "apex_stats"
version = "0.1.0"
edition = "2021"
publish = false

[dependencies]
chrono = { version = "0.4", features = ["serde"] }
clap = "*"
csv = "1"
directories = "*"
serde = { version = "1", features = ["derive"] }
