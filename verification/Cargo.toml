[package]
name = "nicer"
version = "0.1.0"
edition = "2021"
publish = false

[dependencies]
anyhow = "1"
clap = { version = "4", features = ["derive"] }
ctrlc = "3"
nix = { version = "0.29", features = ["signal"] }
core-foundation = "0.10"
windows = { version = "0.58", features = ["Win32_Foundation", "Win32_System_Threading", "Win32_System_Power"] }
