[package]
name = "asn_guard"
version = "0.1.0"
edition = "2021"
publish = false

[dependencies]
maxminddb = "*"
axum = "*"
tokio = { version = "*", features = ["macros", "rt-multi-thread", "net"] }
serde = { version = "*", features = ["derive"] }
serde_json = "*"
