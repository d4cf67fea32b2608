[package]
name = "webhook_deploy"
version = "0.1.0"
edition = "2021"
publish = false

[dependencies]
dotenv = "0.15"
hex = "0.4"
hmac = "0.12"
serde_json = "1"
sha2 = "0.10"
tokio = { version = "1", features = ["macros", "rt-multi-thread"] }
warp = "0.3"
