[package]
name = "cosh"
version = "0.1.0"
edition = "2021"
publish = false

[dependencies]
chrono = { version = "0.4", features = ["clock"] }
clap = { version = "4", features = ["derive"] }
fs2 = "0.4"
futures = "0.3"
nix = { version = "0.29", features = ["fs", "process", "signal", "term", "user"] }
reqwest = { version = "0.12", default-features = false, features = ["json", "stream"] }
rustix = { version = "0.38", features = ["fs", "process"] }
semver = "1"
serde = { version = "1", features = ["derive"] }
serde_json = "1"
tempfile = "3"
thiserror = "1"
tokio = { version = "1", features = ["macros", "rt", "rt-multi-thread", "time"] }
toml = "0.8"
wait-timeout = "0.2"
