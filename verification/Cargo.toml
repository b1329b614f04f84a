[package]
name = "macropad_core"
version = "0.1.0"
edition = "2021"
publish = false

[dependencies]
hidapi = "2"
sysinfo = "0.29"
nvml-wrapper = "0.9"
serde = { version = "1", features = ["derive"] }
serde_json = "1"
directories = "5"
auto-launch = "0.5"
