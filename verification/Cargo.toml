[package]
name = "hydrogen"
version = "0.1.0"
edition = "2021"
publish = false

[dependencies]
regex = "1"
rand = "0.9"
tokio = { version = "1", features = ["rt-multi-thread", "macros", "time", "sync", "net"] }
serde = { version = "1", features = ["derive"] }
serde_json = "1"
reqwest = { version = "0.12", default-features = false, features = ["rustls-tls"] }
tokio-tungstenite = { version = "*", features = ["rustls-tls-webpki-roots"] }
futures = "0.3"
http = "1"
url = "2"
bytes = "1"
dashmap = "6"
parking_lot = "0.12"
phf = { version = "0.11", features = ["macros"] }
beef = "0.5"
moka = { version = "0.12", features = ["sync"] }
serenity = "0.12"
songbird = { version = "*", default-features = false, features = ["serenity", "gateway", "rustls"] }
tracing = "0.1"
tracing-subscriber = { version = "0.3", features = ["env-filter"] }
