[package]
name = "docker_volume_xetfs"
version = "0.1.0"
edition = "2021"
publish = false

[dependencies]
humantime = "*"
serde = { version = "*", features = ["derive"] }
tokio = { version = "*", features = ["macros", "rt-multi-thread", "process", "fs", "sync", "net"] }
clap = { version = "*", features = ["derive"] }
anyhow = "*"
tracing = "*"
tracing-subscriber = { version = "*", features = ["env-filter", "json"] }
async-trait = "*"
axum = "*"
