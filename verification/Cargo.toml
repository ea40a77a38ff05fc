[package]
name = "proc_spawn"
version = "0.1.0"
edition = "2021"
publish = false

[dependencies]
serde_json = "1"
serde = { version = "1", features = ["derive"] }
libc = "0.2"
nix = { version = "*", features = ["signal"] }
tokio = { version = "1", features = ["process", "rt"] }
