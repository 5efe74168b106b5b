[package]
name = "opencodedeck"
version = "0.1.0"
edition = "2021"
publish = false

[dependencies]
dirs = "*"
which = "*"
reqwest = { version = "0.12", default-features = false }
serde = { version = "1", features = ["derive"] }
serde_json = "1"
tokio = { version = "1", features = ["process", "rt-multi-thread", "time", "io-util", "macros", "sync"] }
nix = { version = "*", features = ["signal"] }
