[package]
name = "eden_client"
version = "0.1.0"
edition = "2021"
publish = false

[dependencies]
jsonwebtoken = { version = "=11.1.0", features = ["rust_crypto"] }
serde_json = "=1.0.151"
url = "=2.5.8"
serde = { version = "=1.0.229", features = ["derive"] }
toml = "=1.1.7"
reqwest = { version = "=0.13.5", default-features = false, features = ["blocking", "json"] }
scoped-pool = "=1.0.0"
clap = "=4.6.7"
