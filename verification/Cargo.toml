[package]
name = "tx_agent"
version = "0.1.0"
edition = "2021"
publish = false

[dependencies]
anyhow = "1"
axum = { version = "0.8", default-features = false, features = ["http1", "tokio"] }
base64 = "=0.22.1"
bincode = "=1.3.3"
bs58 = "=0.5.1"
chrono = { version = "=0.4.45", features = ["serde"] }
futures-util = { version = "0.3", default-features = false, features = ["sink"] }
prost = "0.14"
reqwest = { version = "0.12", default-features = false, features = ["json", "rustls-tls-native-roots"] }
rmcp = { version = "1", default-features = false, features = ["server", "client", "macros", "transport-streamable-http-server", "transport-streamable-http-client-reqwest"] }
serde = { version = "1", features = ["derive"] }
serde_json = "1"
solana-commitment-config = "=3.1.1"
solana-sdk = { version = "=3.0.0", default-features = false, features = ["full"] }
solana-system-interface = { version = "=2.0.0", features = ["bincode"] }
tokio = { version = "1", features = ["fs", "macros", "net", "rt-multi-thread", "sync", "time"] }
tokio-tungstenite = { version = "*", features = ["rustls-tls-native-roots"] }
tonic = { version = "0.14", default-features = false, features = ["channel", "codegen", "tls-ring", "tls-native-roots"] }
tonic-prost = "0.14"
tracing = "0.1"
tracing-subscriber = { version = "0.3", default-features = false, features = ["env-filter", "fmt"] }
