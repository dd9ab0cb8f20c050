[package]
name = "sigye"
version = "0.1.0"
edition = "2021"
publish = false

[dependencies]
chrono = "=0.4.45"
color-eyre = "=0.6.5"
crossterm = "=0.29.0"
ratatui = "=0.30.2"
serde = { version = "=1.0.229", features = ["derive"] }
sysinfo = "=0.39.6"
ureq = { version = "=3.4.2", features = ["json"] }
