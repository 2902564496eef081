[package]
name = "comic_universe"
version = "0.1.0"
edition = "2021"
publish = false

[dependencies]
anyhow = "1"
dirs = "5"
flate2 = "1"
reqwest = { version = "=0.12.28", default-features = false, features = ["json"] }
serde = { version = "1", features = ["derive"] }
serde_json = { version = "=1.0.154", features = ["float_roundtrip"] }
sqlx = { version = "0.8", default-features = false, features = ["derive", "migrate", "runtime-tokio", "sqlite"] }
tar = "0.4"
tokio = { version = "1", features = ["fs", "io-util", "process", "rt-multi-thread"] }
url = "=2.5.8"
