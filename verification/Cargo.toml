[package]
name = "streams_immudb"
version = "0.1.0"
edition = "2021"
publish = false

[dependencies]
anyhow = "*"
async-trait = "*"
base64 = "=0.13.1"
futures = "*"
reqwest = { version = "*", default-features = false, features = ["json"] }
serde = "*"
serde_json = "*"
tokio = { version = "*", features = ["macros", "rt-multi-thread"] }
