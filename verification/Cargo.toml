[package]
name = "tokocrypto_cli"
version = "0.1.0"
edition = "2021"
publish = false

[dependencies]
hmac = "0.12"
sha2 = "0.10"
hex = "0.4"
chrono = "0.4"
serde = { version = "1", features = ["derive"] }
serde_json = "1"
clap = { version = "4", features = ["derive"] }
tokio = { version = "1", features = ["full"] }
reqwest = { version = "0.12", default-features = false, features = ["json", "rustls-tls"] }
tokio-tungstenite = "*"
futures-util = "0.3"
colored = "*"
comfy-table = "7"
rustyline = "*"
shlex = "1"
rmcp = { version = "*", features = ["server", "transport-io"] }
anyhow = "1"
thiserror = "*"
url = "2"
tracing-subscriber = { version = "0.3", features = ["env-filter"] }
async-trait = "0.1"
