[package]
name = "cgx"
version = "0.1.0"
edition = "2021"
publish = false

[dependencies]
backon = "=1.6.0"
base64 = "=0.22.1"
build-context = "=0.1.4"
bytes = "=1.12.1"
cargo_metadata = "=0.23.1"
chrono = { version = "=0.4.45", features = ["serde"] }
clap = { version = "=4.6.7", features = ["derive", "env"] }
etcetera = "=0.11.0"
figment = { version = "=0.10.19", features = ["toml"] }
flate2 = "=1.1.10"
gix = { version = "=0.90.0", default-features = false, features = ["blocking-network-client", "blocking-http-transport-reqwest-rust-tls", "parallel", "revision", "worktree-mutation", "sha1"] }
humantime-serde = "=1.1.1"
reqwest = { version = "=0.13.5", default-features = false, features = ["blocking", "rustls", "socks"] }
rustls-native-certs = "=0.8.5"
semver = { version = "=1.0.28", features = ["serde"] }
serde = { version = "=1.0.229", features = ["derive"] }
serde_json = "=1.0.154"
sha2 = "=0.10.9"
shellexpand = "=3.1.2"
snafu = "=0.8.9"
tame-index = { version = "=0.26.3", features = ["sparse"] }
tar = "=0.4.46"
tempfile = "=3.27.0"
tokio = { version = "=1.54.1", features = ["rt"] }
toml = "=0.8.23"
tracing = "=0.1.44"
tracing-subscriber = { version = "=0.3.23", features = ["env-filter", "fmt"] }
url = { version = "=2.5.8", features = ["serde"] }
