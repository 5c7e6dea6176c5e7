[package]
name = "systemd_gateway"
version = "0.1.0"
edition = "2021"
publish = false

[dependencies]
dbus = { version = "0.9", features = ["vendored"] }
sysinfo = "0.29"
serde = { version = "1", features = ["derive"] }
serde_json = "1"
actix-web = "4"
log = "0.4"
env_logger = "0.10"
derive_more = "0.99"
