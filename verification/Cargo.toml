[package]
name = "standby"
version = "0.1.0"
edition = "2021"
publish = false

[dependencies]
base64 = "0.22"
chrono = { version = "0.4", default-features = false, features = ["clock", "std"] }
rand = "0.8"
serde = { version = "1", features = ["derive"] }
serde_json = "1"
sys-locale = "0.3"
tokio = { version = "1", default-features = false, features = ["time"] }
windows-sys = { version = "0.59", default-features = false, features = ["Win32_Globalization"] }
