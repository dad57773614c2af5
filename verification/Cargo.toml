[package]
name = "beef_market"
version = "0.1.0"
edition = "2021"
publish = false

[dependencies]
rust_decimal = "=1.43.0"
scraper = "=0.29.0"
config = "=0.15.27"
anyhow = "=1.0.104"
async-trait = "=0.1.92"
futures = "=0.3.34"
once_cell = "=1.21.4"
serde_json = "=1.0.154"
tokio = { version = "=1.54.1", features = ["macros", "rt-multi-thread", "sync", "time"] }
tracing = "=0.1.44"
tracing-log = "=0.2.0"
tracing-subscriber = { version = "=0.3.23", features = ["env-filter"] }
zerocopy = "=0.8.63"
reqwest = { version = "=0.12.28", default-features = false, features = ["rustls-tls"] }
fantoccini = { version = "=0.22.1", default-features = false, features = ["rustls-tls"] }
ollama-rs = { version = "=0.3.6", default-features = false }
sqlx = { version = "=0.9.0", default-features = false, features = ["sqlite", "runtime-tokio", "migrate"] }
libsqlite3-sys = "=0.37.0"
sqlite-vec = "*"
