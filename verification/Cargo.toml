[package]
name = "ratbagd"
version = "0.1.0"
edition = "2021"
publish = false

[dependencies]
anyhow = "=1.0.104"
async-trait = "=0.1.92"
clap = { version = "=4.6.7", features = ["derive"] }
configparser = "=3.3.0"
nix = { version = "=0.31.3", features = ["ioctl"] }
serde = { version = "=1.0.229", features = ["derive"] }
serde_json = "=1.0.154"
thiserror = "=2.0.21"
tokio = { version = "=1.54.1", features = ["full"] }
tracing = "=0.1.44"
zbus = { version = "=6.1.0", default-features = false, features = ["tokio", "service"] }
