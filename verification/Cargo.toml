[package]
name = "crypta"
version = "0.1.0"
edition = "2021"
publish = false

[dependencies]
anyhow = "=1.0.104"
arboard = "=3.7.0"
clap = { version = "=4.6.7", features = ["derive"] }
git2 = { version = "=0.21.0", features = ["ssh"] }
rops = { version = "=0.1.7", default-features = false, features = ["yaml", "aes-gcm", "sha2"] }
serde_yaml = "=0.9.34"
tracing = "=0.1.44"
tracing-subscriber = { version = "=0.3.23", features = ["env-filter"] }

[dev-dependencies]
tempfile = "=3.27.0"
