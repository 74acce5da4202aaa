[package]
name = "telepass"
version = "0.1.0"
edition = "2021"
publish = false

[dependencies]
aes-gcm = "=0.10.3"
pbkdf2 = "=0.12.2"
sha2 = "=0.10.9"
base64 = "=0.22.1"
url = "=2.5.8"
serde = { version = "1", features = ["derive"] }
serde_json = "1"
tokio = { version = "1", features = ["macros", "rt-multi-thread", "sync"] }
teloxide = { version = "=0.17.0", default-features = false, features = ["macros", "rustls", "ctrlc_handler"] }
takecell = "=0.1.1"
tonic = "=0.12.3"
prost = "=0.13.5"
