[package]
name = "plesk_solver"
version = "0.1.0"
edition = "2021"
publish = false

[dependencies]
anyhow = "1"
rcgen = "0.13"
serde = { version = "1", features = ["derive"] }
serde_json = "1"
tokio = { version = "1", features = ["macros", "rt-multi-thread", "sync"] }
tracing = "0.1"
warp = { version = "0.3", features = ["tls"] }
