[package]
name = "wikcli"
version = "0.1.0"
edition = "2021"
publish = false

[dependencies]
sha2 = "=0.11.0"
base64 = "=0.23.1"
reqwest = { version = "=0.12.28", default-features = false, features = ["json", "rustls-tls", "http2"] }
tokio = { version = "=1.53.2", features = ["macros", "rt-multi-thread"] }
futures = "=0.3.34"
serde = { version = "=1.0.229", features = ["derive"] }
serde_json = "=1.0.151"
anyhow = "=1.0.104"
clap = { version = "=4.6.7", features = ["derive"] }
confy = "=2.0.0"
console = "=0.16.6"
dialoguer = "=0.12.0"
enable-ansi-support = "=0.3.1"
human-panic = "=2.0.8"
itertools = "=0.15.0"
owo-colors = { version = "=4.4.0", features = ["supports-colors"] }
