[package]
name = "launcher_core"
version = "0.1.0"
edition = "2021"
publish = false

[dependencies]
serde_json = "*"
zip = { version = "*", default-features = false, features = ["deflate"] }
sysinfo = "*"
serde = { version = "*", features = ["derive"] }
chrono = "*"
tokio = { version = "1", features = ["rt", "fs", "process", "time", "macros", "io-util"] }
reqwest = { version = "*", default-features = false, features = ["rustls-tls", "stream"] }
futures = "*"
