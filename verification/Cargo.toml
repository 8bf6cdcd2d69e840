[package]
name = "rust_actor_pattern"
version = "0.1.0"
edition = "2021"
publish = false

[dependencies]
anyhow = "*"
tokio = { version = "*", features = ["rt-multi-thread", "sync", "macros"] }
