[package]
name = "nmea_simulator"
version = "0.1.0"
edition = "2021"
publish = false

[dependencies]
chrono = "0.4"
rand = "0.8"
libc = "0.2"
nix = { version = "0.29", features = ["fs", "term"] }
signal-hook = "0.3"
