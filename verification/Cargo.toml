[package]
name = "chessh"
version = "0.1.0"
edition = "2021"
publish = false

[dependencies]
shakmaty = "=0.29.4"
rand = "=0.10.3"
image = { version = "=0.25.10", default-features = false, features = ["png"] }
ratatui = "=0.29.0"
crossterm = "=0.28.1"
russh = { version = "=0.65.0", default-features = false, features = ["ring", "flate2"] }
tokio = { version = "=1.54.1", features = ["full"] }
serde = { version = "=1.0.229", features = ["derive"] }
serde_json = "=1.0.154"
tracing = "=0.1.44"
tracing-subscriber = "=0.3.23"
