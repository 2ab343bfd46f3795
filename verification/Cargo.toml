[package]
name = "nspawn-runner"
version = "0.1.0"
edition = "2021"
publish = false

[dependencies]
anyhow = "*"
clap = { version = "*", features = ["derive"] }
log = "*"
nix = { version = "*", features = ["signal", "process"] }
serde = { version = "*", features = ["derive"] }
simplelog = "*"
tokio = { version = "*", features = ["full"] }
tokio-seqpacket = "*"
toml = "*"
uuid = { version = "*", features = ["serde", "v4"] }
