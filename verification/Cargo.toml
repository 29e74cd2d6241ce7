[package]
name = "modsync"
version = "0.1.0"
edition = "2021"
publish = false

[dependencies]
anyhow = "1"
directories = "6"
librqbit = { version = "8.1.1", default-features = false, features = ["rust-tls"] }
opener = "0.8"
reqwest = { version = "0.12", default-features = false, features = ["rustls-tls"] }
serde = { version = "1", features = ["derive"] }
sha2 = "0.10"
tokio = { version = "1", features = ["full"] }
toml = "0.8"
walkdir = "2"
