[package]
name = "rust-virt-manager"
version = "0.1.0"
edition = "2021"
publish = false

[dependencies]
quick-xml = { version = "=0.42.0", features = ["serialize"] }
serde = { version = "=1.0.229", features = ["derive"] }
url = "=2.5.8"
uuid = { version = "=1.29.0", features = ["v4"] }
rand = "=0.9.5"
thiserror = "=2.0.21"
crossbeam-channel = "=0.5.17"
log = "=0.4.35"
env_logger = "=0.11.11"
confy = "=2.0.0"
virt = "=0.5.0"
vt100 = "=0.18.1"
tokio = { version = "1", features = ["rt", "net", "time"] }
image = { version = "0.25", default-features = false, features = ["jpeg"] }
vnc-rs = "*"
