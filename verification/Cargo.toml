[package]
name = "tcrm-task"
version = "0.1.0"
edition = "2021"
publish = false

[dependencies]
nix = { version = "0.29", features = ["signal", "process"] }
tokio = { version = "1", features = ["full"] }
serde = { version = "1", features = ["derive"] }
thiserror = "2"
libc = "0.2"

[dev-dependencies]
serde_json = "1"
