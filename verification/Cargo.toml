[package]
name = "mortise"
version = "0.1.0"
edition = "2021"
publish = false

[dependencies]
libbpf-rs = "0.21"
libc = "0.2"
nix = { version = "0.29", features = ["resource", "time"] }
tokio = { version = "1", features = ["full"] }
tokio-util = { version = "0.7", features = ["codec"] }
futures = "0.3"
serde = { version = "1", features = ["derive"] }
serde_json = "1"
bytes = "1"
ctrlc = "3"
tracing = "0.1"
tracing-subscriber = { version = "0.3", features = ["env-filter"] }
