[package]
name = "pulsewave"
version = "0.1.0"
edition = "2021"
publish = false

[dependencies]
anyhow = "1"
clap = { version = "4", features = ["derive"] }
crossterm = "0.28"
ratatui = "0.29"
surge-ping = "0.8"
sysinfo = "0.33"
tokio = { version = "1", features = ["full"] }
