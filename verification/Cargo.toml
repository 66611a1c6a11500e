[package]
name = "minibox"
version = "0.1.0"
edition = "2021"

[dependencies]
serde_json = "1"
flate2 = "1"
nix = { version = "0.29", features = ["sched", "fs", "user"] }
reqwest = { version = "0.12", default-features = false, features = ["blocking"] }
tar = "0.4"
tempfile = "3"
