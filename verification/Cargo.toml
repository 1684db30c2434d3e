[package]
name = "elm_ui"
version = "0.1.0"
edition = "2021"
publish = false

[dependencies]
tokio = { version = "1", features = ["full"] }
tokio-util = "0.7"
futures = "0.3"
async-recursion = "1"
thiserror = "1"
pin-project-lite = "0.2"
crossterm = { version = "0.25", features = ["event-stream"] }
tui = "0.19"
