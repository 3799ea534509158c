[package]
name = "two_phase_commit"
version = "0.1.0"
edition = "2021"
publish = false

[dependencies]
rand = "0.8"
ipc-channel = "*"
serde = { version = "1", features = ["derive"] }
clap = "4"
ctrlc = "3"
log = "0.4"
stderrlog = "*"
