[package]
name = "neurust"
version = "0.1.0"
edition = "2021"
publish = false

[dependencies]
similar = "=2.7.0"
chrono = "=0.4.45"
anyhow = "=1.0.104"
clap = { version = "=4.6.7", features = ["derive"] }
colored = "=2.2.0"
console = "=0.15.11"
dialoguer = "=0.11.0"
indicatif = "=0.17.11"
reqwest = { version = "=0.12.28", default-features = false, features = ["json", "rustls-tls"] }
serde = { version = "=1.0.229", features = ["derive"] }
serde_json = "=1.0.154"
tokio = { version = "=1.54.1", features = ["rt-multi-thread", "macros"] }
walkdir = "=2.5.0"
rustyline = { version = "=15.0.0", features = ["derive"] }
dirs = "=5.0.1"
toml_edit = "=0.22.27"
html2text = "=0.12.6"
rand = "=0.9.5"
uuid = { version = "=1.29.0", features = ["v4", "serde"] }
axum = "=0.8.9"
sqlx = { version = "=0.8.6", default-features = false, features = ["postgres", "runtime-tokio", "derive", "migrate", "uuid", "chrono"] }
dotenv = "=0.15.0"
tower-http = { version = "=0.6.11", features = ["cors"] }
tracing-subscriber = "=0.3.23"
solana-keypair = "=2.2.3"
solana-signer = "=2.2.1"
solana-pubkey = "=2.4.0"
