[package]
name = "voice_queue"
version = "0.1.0"
edition = "2021"
publish = false

[dependencies]
async-trait = "=0.1.92"
futures = "=0.3.34"
log = "=0.4.34"
rand = "=0.8.8"
reqwest = { version = "0.11", default-features = false, features = ["rustls-tls"] }
serde = { version = "=1.0.229", features = ["derive"] }
serde_json = "=1.0.154"
songbird = { version = "=0.3.2", default-features = false, features = ["driver", "gateway", "twilight-rustls", "zlib-stock", "builtin-queue"] }
tokio = { version = "=1.54.1", features = ["rt-multi-thread", "macros", "signal", "fs", "time", "sync"] }
twilight-cache-inmemory = "=0.12.1"
twilight-gateway = "=0.12.1"
twilight-http = "=0.12.2"
twilight-model = "=0.12.3"
