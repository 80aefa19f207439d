[package]
name = "rusterm"
version = "0.1.0"
edition = "2021"
publish = false

[dependencies]
dirs = "*"
keyring = { version = "3", default-features = false }
libc = "0.2"
portable-pty = "*"
serde = { version = "1", features = ["derive"] }
serde_json = "1"
ssh2 = "0.9"
tauri = { version = "2", default-features = false }
thiserror = "*"
tokio = { version = "1", features = ["full"] }
uuid = { version = "1", features = ["v4"] }
