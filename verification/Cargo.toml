[package]
name = "moq-relay"
version = "0.1.0"
edition = "2021"
publish = false

[dependencies]
anyhow = "1"
axum = "0.7"
bytes = "=1.12.1"
clap = { version = "4", features = ["derive"] }
env_logger = "0.11"
futures = "0.3"
hyper = { version = "1", features = ["http1", "server"] }
hyper-util = { version = "0.1", features = ["tokio"] }
log = "0.4"
moq-native-ietf = "=0.5.5"
moq-transport = "=0.11.0"
rustls = { version = "0.23", default-features = false, features = ["ring", "std", "tls12", "logging"] }
thiserror = "1"
tokio = { version = "1", features = ["full"] }
tokio-rustls = { version = "0.26", default-features = false, features = ["ring", "tls12", "logging"] }
tower-http = { version = "0.5", features = ["cors"] }
tower-service = "0.3"
tracing = "0.1"
tracing-subscriber = "0.3"
url = "=2.5.8"
web-transport = "=0.3.1"
web-transport-quinn = "=0.3.4"
web-transport-trait = "=0.2.0"
web-transport-ws = "=0.1.3"

[dev-dependencies]
quinn = { version = "0.11", features = ["ring"] }
rcgen = { version = "0.13", default-features = false, features = ["ring", "crypto"] }
