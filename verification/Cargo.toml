[package]
name = "ns_inscriber_core"
version = "0.1.0"
edition = "2021"
publish = false

[dependencies]
anyhow = "1"
bitcoin = "0.31"
chrono = "0.4"
clap = { version = "4", features = ["derive"] }
coset = "0.3"
dotenvy = "0.15"
hex = "0.4"
serde_json = "1"
terminal-prompt = "*"
tokio = { version = "1", features = ["macros", "rt-multi-thread"] }
