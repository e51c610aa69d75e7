[package]
name = "ssh_core"
version = "0.1.0"
edition = "2021"
publish = false

[dependencies]
russh = { version = "*", default-features = false, features = ["ring", "rsa", "flate2"] }
russh-sftp = "*"
rusocks = "*"
ssh-key = "*"
tokio = { version = "1", features = ["full"] }
uuid = { version = "1", features = ["serde", "v4"] }
serde = { version = "1", features = ["derive"] }
serde_json = "1"
async-trait = "0.1"
thiserror = "*"
strum = { version = "*", features = ["derive"] }
log = "0.4"
futures = "0.3"
