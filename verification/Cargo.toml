[package]
name = "moonboard"
version = "0.1.0"
edition = "2021"
publish = false

[dependencies]
chrono = "0.4"
epochs = "*"
reqwest = { version = "0.12", default-features = false, features = ["json"] }
serde = { version = "1", features = ["derive"] }
serde_json = "1"
tokio = { version = "1", features = ["rt", "macros"] }
uuid = { version = "1", features = ["serde"] }
