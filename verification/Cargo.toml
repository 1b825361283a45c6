[package]
name = "scap"
version = "0.1.0"
edition = "2021"
publish = false

[dependencies]
pipewire = "*"
dbus = "*"
rustix = { version = "*", features = ["fs", "mm", "param"] }
