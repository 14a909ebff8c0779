[package]
name = "mathseek"
version = "0.1.0"
edition = "2021"
publish = false

[dependencies]
base64 = "*"
image = "*"
serde = { version = "*", features = ["derive"] }
serde_json = "*"
thiserror = "*"
reqwest = { version = "*", default-features = false, features = ["json"] }
tokio = { version = "*", features = ["rt", "time", "macros"] }
