[package]
name = "volume_mirror"
version = "0.1.0"
edition = "2021"
publish = false

[dependencies]
crossbeam = "=0.8.5"
eyre = "=0.6.14"
log = "=0.4.34"
fern = { version = "=0.7.1", features = ["colored"] }
chrono = "=0.4.45"
voicemeeter = "=0.4.0"
