[package]
name = "cred_broker"
version = "0.1.0"
edition = "2021"
publish = false

[dependencies]
serde = { version = "1", features = ["derive"] }
serde_json = "1"
thiserror = "2"
interprocess = "2"
windows-sys = { version = "0.59", features = ["Win32_Foundation", "Win32_System_Threading"] }
