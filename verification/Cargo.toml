[package]
name = "sps"
version = "0.1.0"
edition = "2021"
publish = false

[dependencies]
sha2 = "0.10"
serde = { version = "1", features = ["derive"] }
ordered-float = "*"
rusqlite = "*"
