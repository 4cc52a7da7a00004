[package]
name = "wg_client"
version = "0.1.0"
edition = "2021"
publish = false

[dependencies]
boringtun = "0.4"
clap = "2"
daemonize = "0.5"
ipnet = "2"
nix = "0.23"
slog = "2"
slog-term = "2"
tokio = { version = "1", features = ["full"] }
tun = { version = "0.5", features = ["async"] }
