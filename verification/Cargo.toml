[package]
name = "objects"
version = "0.1.0"
edition = "2021"
publish = false

[dependencies]
async-trait = "0.1"
base64 = "0.13"
cucumber = { version = "0.13", features = ["output-json"] }
hmac = "0.10"
reqwest = { version = "0.11", features = ["json"] }
serde = { version = "1", features = ["derive"] }
serde_json = "1"
sha2 = "0.9"
tokio = { version = "1", features = ["macros", "rt-multi-thread"] }
urlencoding = "2"
