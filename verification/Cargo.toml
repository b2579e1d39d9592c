[package]
name = "base_station"
version = "0.1.0"
edition = "2021"
publish = false

[dependencies]
anyhow = "*"
bluer = { version = "=0.17.4", features = ["bluetoothd"] }
clap = "=4.6.7"
env_logger = "*"
futures = "*"
isahc = { version = "=2.0.1", default-features = false, features = ["rustls-tls"] }
log = "*"
serde = { version = "*", features = ["derive"] }
serde_yaml = "=0.9.34"
thiserror = "*"
tokio = { version = "=1.53.2", features = ["rt", "macros", "time", "sync"] }
url = { version = "=2.5.8", features = ["serde"] }
uuid = "=1.27.0"

[dev-dependencies]
byteorder = "=1.5.0"
