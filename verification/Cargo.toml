[package]
name = "crawlkit_extensions"
version = "0.1.0"
edition = "2021"
publish = false

[dependencies]
anyhow = "1"
async-trait = "0.1"
async-tungstenite = { version = "*", features = ["tokio-runtime"] }
backon = "1"
crawlkit-core = "*"
firecrawl2 = "*"
futures = "0.3"
rand = "0.9"
reqwest = { version = "0.12", default-features = false, features = ["json", "rustls-tls"] }
serde_json = "1"
tokio = { version = "1", features = ["full"] }
