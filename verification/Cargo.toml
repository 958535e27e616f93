[package]
name = "console"
version = "0.1.0"
edition = "2021"
publish = false

[dependencies]
chrono = "*"
serde = { version = "*", features = ["derive"] }
serde_json = "*"
tokio = { version = "*", features = ["rt-multi-thread", "macros", "time"] }
tokio-postgres = "*"
native-tls = "*"
postgres-native-tls = "*"
reqwest = { version = "*", features = ["json"] }
