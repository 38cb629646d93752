[package]
name = "sessioncast"
version = "0.1.0"
edition = "2021"
publish = false

[dependencies]
aes-gcm = "0.10"
rand = "0.8.5"
base64 = "0.22"
zstd = "0.13"
flate2 = "1"
sha2 = "0.10"
hex = "0.4"
url = "2"
anyhow = "1"
clap = { version = "4", features = ["derive"] }
colored = "2"
confy = "0.6"
directories = "5"
futures-util = "0.3"
indicatif = "0.17"
open = "5"
reqwest = { version = "0.12", default-features = false, features = ["json", "rustls-tls"] }
self_update = { version = "0.41", default-features = false, features = ["rustls"] }
serde = { version = "1", features = ["derive"] }
serde_json = "1"
serde_yaml = "0.9"
tokio = { version = "1", features = ["full"] }
tokio-tungstenite = "0.21"
tracing = "0.1"
tracing-subscriber = { version = "0.3", features = ["env-filter"] }
ureq = "2"
which = "6"
whoami = "1"
zip = { version = "2", default-features = false, features = ["deflate"] }
