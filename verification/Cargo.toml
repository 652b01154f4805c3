[package]
name = "task_api"
version = "0.1.0"
edition = "2021"
publish = false

[dependencies]
jsonwebtoken = { version = "9", default-features = false }
serde_json = "*"
bcrypt = "*"
memory-stats = "*"
