[package]
name = "host_telemetry"
version = "0.1.0"
edition = "2021"
publish = false

[dependencies]
sysinfo = "*"
get_if_addrs = "*"
base64 = "*"
image = { version = "*", default-features = false, features = ["png"] }
serde = { version = "*", features = ["derive"] }
serde_json = "*"
num_cpus = "*"
