[package]
name = "clomonitor-core"
version = "0.1.0"
edition = "2021"
publish = false

[dependencies]
anyhow = "1"
async-trait = "*"
clap = { version = "4", features = ["derive"] }
comfy-table = "7"
postgres-types = { version = "*", features = ["derive"] }
serde = { version = "1", features = ["derive"] }
time = "0.3"
