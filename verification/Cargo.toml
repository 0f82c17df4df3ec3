[package]
name = "gitmoji_rs"
version = "0.1.0"
edition = "2021"
publish = false

[dependencies]
url = "=2.5.8"
time = "=0.3.55"
serde = { version = "1", features = ["derive"] }
serde_json = "1"
reqwest = { version = "0.12", default-features = false }
tokio = { version = "1", features = ["rt-multi-thread", "macros", "fs", "io-util", "process"] }
console = "0.15"
dialoguer = { version = "0.11", features = ["fuzzy-select"] }
directories = "5"
