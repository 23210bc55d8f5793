[package]
name = "windows_launcher"
version = "0.1.0"
edition = "2021"
publish = false

[dependencies]
futures = "0.3"
tokio = { version = "1", features = ["full"] }
dbus = "0.9"
dbus-crossroads = "0.5"
dbus-tokio = "0.7"
users = "0.11"
chrono = "0.4"
nix = { version = "0.27", features = ["user"] }
evdev = { version = "0.12", features = ["tokio"] }
input = "0.8"
