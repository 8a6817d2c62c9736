[package]
name = "coretoolbox"
version = "0.1.0"
edition = "2021"
publish = false

[dependencies]
failure = { version = "0.1", default-features = false, features = ["std"] }
fs2 = "0.4"
nix = "0.26"
serde = { version = "1", features = ["derive"] }
serde_json = "1"
signal-hook = "0.1"
structopt = "0.3"
