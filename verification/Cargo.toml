[package]
name = "vauxl_core"
version = "0.1.0"
edition = "2021"
publish = false

[dependencies]
tokio = { version = "1", features = ["sync", "time", "rt", "macros"] }
async-trait = "0.1"
serde = { version = "1", features = ["derive"] }
thiserror = "2"
