[package]
name = "asvz_bot"
version = "0.1.0"
edition = "2021"
publish = false

[dependencies]
chrono = "=0.4.45"
tokio = { version = "1", features = ["macros", "rt-multi-thread", "time", "sync", "io-std", "io-util"] }
reqwest = { version = "=0.12.28", default-features = false, features = ["json", "cookies"] }
reqwest-middleware = { version = "=0.4.2", features = ["json"] }
reqwest-retry = "=0.7.0"
serde = { version = "1", features = ["derive"] }
serde_json = "1"
regex = "1"
url = "2"
html-escape = "=0.2.15"
fastrand = "=2.5.0"
