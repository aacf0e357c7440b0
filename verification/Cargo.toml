[package]
name = "hotreload"
version = "0.1.0"
edition = "2021"
publish = false

[dependencies]
chrono = "*"
notify = "*"
ctrlc = "*"
open = "*"
tokio = { version = "*", features = ["full"] }
axum = { version = "*", features = ["ws"] }
