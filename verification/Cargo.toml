[package]
name = "fedistar"
version = "0.1.0"
edition = "2021"
publish = false

[dependencies]
base64 = "*"
log = "*"
megalodon = "*"
open = "*"
reqwest = "*"
scraper = "*"
serde = { version = "*", features = ["derive"] }
serde_json = "*"
simplelog = "*"
sqlx = { version = "*", default-features = false, features = ["sqlite", "runtime-tokio"] }
tokio = { version = "*", features = ["time"] }
tracing = "*"
url = "*"
